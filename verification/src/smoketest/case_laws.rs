//! What holds of every run of a placement case.

use vstd::prelude::*;

use crate::screen::ScreenLayout;
use crate::smoketest::case_plan::{
    flex_steps, move_min_steps, move_nonresizable_steps, settle_reading, settle_waiting, AnchorRule,
    CasePlan, CounterRule, RequestOptions, Step,
};
use crate::smoketest::case_run::{anchored, CaseView, Observation, Phase};
use crate::smoketest::error::Error;
use crate::smoketest::frames::{px_match, GridCell};

verus! {

/// A report on a performed step, with the time that it took.
pub struct Report {
    /// What the step has shown.
    pub result: Result<Observation, Error>,
    /// How long it took in milliseconds.
    pub took_ms: u64,
}

/// The run after a series of reports; those after its end change nothing.
pub open spec fn ran(v: CaseView, reports: Seq<Report>, screens: &ScreenLayout) -> CaseView
    decreases reports.len(),
{
    if reports.len() == 0 {
        v
    } else {
        let before = ran(v, reports.drop_last(), screens);
        if before.active() {
            before.after(reports.last().result, reports.last().took_ms, screens)
        } else {
            before
        }
    }
}

/// Whether a plan ends by checking the frame and ending the helper.
pub open spec fn ends_checked(steps: Seq<Step>) -> bool {
    &&& steps.len() >= 2
    &&& steps[steps.len() - 1] is Shutdown
    &&& steps[steps.len() - 2] is AssertFrame
}

/// Whether a plan ends by judging how the window is anchored and ending the helper.
pub open spec fn ends_judged(steps: Seq<Step>, rule: AnchorRule) -> bool {
    &&& steps.len() >= 2
    &&& steps[steps.len() - 1] is Shutdown
    &&& steps[steps.len() - 2] == Step::JudgeAnchored(rule)
}

/// Whether the window was last seen where it is expected.
pub open spec fn in_place(v: CaseView) -> bool {
    v.frames matches Some(frames) && px_match(frames.authoritative, v.expected, v.eps as int)
}

/// Whether the window was last seen anchored as a rule asks, by a wait that was not
/// overdue.
pub open spec fn in_anchor(v: CaseView, rule: AnchorRule) -> bool {
    &&& v.overdue is None
    &&& v.frames matches Some(frames) && anchored(
        rule,
        frames.authoritative,
        v.expected,
        v.eps as int,
    )
}

/// What a check says of the window.
pub open spec fn checked_by(v: CaseView, step: Step) -> bool {
    match step {
        Step::AssertFrame => in_place(v),
        Step::JudgeAnchored(rule) => in_anchor(v, rule),
        _ => true,
    }
}

/// Whether a check that was just passed still vouches for the window.
pub open spec fn vouched(v: CaseView) -> bool {
    &&& 0 <= v.at <= v.steps.len()
    &&& v.at >= 1 ==> checked_by(v, v.steps[v.at - 1])
    &&& v.at >= 2 && v.steps[v.at - 1] is Shutdown ==> checked_by(v, v.steps[v.at - 2])
}

proof fn resolving_keeps_vouching(v: CaseView, screens: &ScreenLayout)
    requires
        vouched(v),
    ensures
        vouched(v.resolved(screens)),
        v.resolved(screens).steps == v.steps,
        v.resolved(screens).phase is Passed ==> v.phase is Passed || v.resolved(screens).at
            == v.steps.len(),
    decreases v.steps.len() - v.at,
{
    if v.phase is Running && v.at < v.steps.len() && v.is_inward(v.steps[v.at]) {
        let next = v.inward(screens);
        if next.phase is Running {
            assert(next.at == v.at + 1);
            assert(vouched(next));
            resolving_keeps_vouching(next, screens);
        }
    }
}

proof fn reporting_keeps_vouching(
    v: CaseView,
    report: Result<Observation, Error>,
    took_ms: u64,
    screens: &ScreenLayout,
)
    requires
        vouched(v),
        v.active(),
    ensures
        vouched(v.after(report, took_ms, screens)),
        v.after(report, took_ms, screens).steps == v.steps,
        v.after(report, took_ms, screens).phase is Passed ==> v.after(report, took_ms, screens).at
            == v.steps.len(),
{
    if let Ok(seen) = report {
        let next = v.reported(seen, took_ms);
        assert(next.steps == v.steps);
        assert(!(next.phase is Passed));
        assert(vouched(next));
        resolving_keeps_vouching(next, screens);
    }
}

proof fn runs_keep_vouching(v: CaseView, reports: Seq<Report>, screens: &ScreenLayout)
    requires
        vouched(v),
        v.phase is Passed ==> v.at == v.steps.len(),
    ensures
        vouched(ran(v, reports, screens)),
        ran(v, reports, screens).steps == v.steps,
        ran(v, reports, screens).phase is Passed ==> ran(v, reports, screens).at == v.steps.len(),
    decreases reports.len(),
{
    if reports.len() > 0 {
        runs_keep_vouching(v, reports.drop_last(), screens);
        let before = ran(v, reports.drop_last(), screens);
        if before.active() {
            reporting_keeps_vouching(
                before,
                reports.last().result,
                reports.last().took_ms,
                screens,
            );
        }
    }
}

/// Whatever is reported, a case whose plan ends by checking the frame passes only
/// when the window was last seen where it is expected.
pub proof fn passing_means_the_window_is_in_place(
    begun: CaseView,
    reports: Seq<Report>,
    screens: &ScreenLayout,
)
    requires
        begun.at == 0,
        begun.phase is Running,
        ends_checked(begun.steps),
    ensures
        ({
            let end = ran(begun.resolved(screens), reports, screens);
            end.phase is Passed ==> in_place(end)
        }),
{
    assert(vouched(begun));
    resolving_keeps_vouching(begun, screens);
    runs_keep_vouching(begun.resolved(screens), reports, screens);
}

/// Whatever is reported, a case whose plan ends by judging how the window is anchored
/// passes only when the window was last seen anchored like that.
pub proof fn passing_means_the_window_is_anchored(
    begun: CaseView,
    reports: Seq<Report>,
    screens: &ScreenLayout,
    rule: AnchorRule,
)
    requires
        begun.at == 0,
        begun.phase is Running,
        ends_judged(begun.steps, rule),
    ensures
        ({
            let end = ran(begun.resolved(screens), reports, screens);
            end.phase is Passed ==> in_anchor(end, rule)
        }),
{
    assert(vouched(begun));
    resolving_keeps_vouching(begun, screens);
    runs_keep_vouching(begun.resolved(screens), reports, screens);
}

/// The move cases end by judging how the window is anchored and ending the helper: with
/// its width as asked for a helper with a smallest height, and with at least the size
/// asked for one that cannot be resized.
pub proof fn move_plans_end_judged(min: CasePlan, nonresizable: CasePlan)
    requires
        min.steps@ == move_min_steps(),
        nonresizable.steps@ == move_nonresizable_steps(),
    ensures
        ends_judged(min.steps@, AnchorRule::FixedWidth),
        ends_judged(nonresizable.steps@, AnchorRule::AtLeast),
{
}

/// The placement cases end by checking the frame and ending the helper.
pub proof fn placement_plans_end_checked(
    head: Seq<Step>,
    cell: GridCell,
    options: RequestOptions,
    rule: CounterRule,
)
    ensures
        ends_checked(head + settle_waiting()),
        ends_checked(head + settle_reading()),
        ends_checked(flex_steps(cell, options, rule)),
{
}

/// Once a case is over, nothing that is reported changes how it ended.
pub proof fn ended_cases_stay_ended(v: CaseView, reports: Seq<Report>, screens: &ScreenLayout)
    requires
        v.phase is Passed || v.phase is Failed || v.phase is Aborted,
    ensures
        ran(v, reports, screens) == v,
    decreases reports.len(),
{
    if reports.len() > 0 {
        ended_cases_stay_ended(v, reports.drop_last(), screens);
    }
}

/// A move that ends out of place has its helper ended before the case fails.
pub proof fn failed_moves_end_their_helper(
    v: CaseView,
    report: Result<Observation, Error>,
    took_ms: u64,
    screens: &ScreenLayout,
)
    requires
        v.phase is Failing,
    ensures
        v.active(),
        v.step() is Shutdown,
        report is Ok ==> v.after(report, took_ms, screens).phase == Phase::Failed(v.phase->Failing_0),
{
}

} // verus!
