//! Running the plan of a placement case.
//!
//! The run hands out one step at a time. The caller performs it and reports what
//! was observed; the run judges the report, keeps what later steps need, and
//! goes on. A case passes when every step has passed.

use vstd::prelude::*;
use vstd::string::*;

use crate::place::metrics::PlacementCountersSnapshot;
use crate::screen::ScreenLayout;
use crate::smoketest::case_plan::{cells_in_grid, counters_pass, AnchorRule, CasePlan, CounterRule, Step};
use crate::smoketest::error::{is_invalid, Error};
use crate::smoketest::frames::{
    assert_frame_matches, cell_on_screen, format_frame_failure, frame_failure_text,
    grid_rect_from_frames, mismatch_text, px_match, rect_matches, small, wait_failure_text, Frames,
    GridCell, RectDelta, RectPx,
};
use crate::text::{dec, decimal, texts};

verus! {

/// What a performed step has shown.
#[derive(Debug)]
pub enum Observation {
    /// Nothing besides that it is done.
    Done,
    /// A file was written.
    Written(String),
    /// The frames of the window.
    Seen(Frames),
    /// The window has no frames.
    Unseen,
    /// A wait ended without what was awaited.
    Overdue(String),
    /// The placement counters.
    Counted(PlacementCountersSnapshot),
}

/// The time that each phase of a move case took, in milliseconds.
#[derive(Debug, Clone, Copy, PartialEq, Eq, Structural)]
pub struct MoveCaseBudget {
    /// Letting helpers run.
    pub warmup_ms: u64,
    /// Starting and finding the helper.
    pub spawn_ms: u64,
    /// Waiting for the first frames.
    pub initial_frames_ms: u64,
    /// Bringing the helper to the front.
    pub action_raise_ms: u64,
    /// Asking for the move.
    pub move_request_ms: u64,
    /// Waiting for the final frame.
    pub settle_wait_ms: u64,
}

impl MoveCaseBudget {
    /// The budget with the time of a step.
    pub open spec fn noted(self, step: Step, took_ms: u64) -> MoveCaseBudget {
        match step {
            Step::PumpFor { .. } => MoveCaseBudget { warmup_ms: took_ms, ..self },
            Step::Spawn => MoveCaseBudget { spawn_ms: took_ms, ..self },
            Step::AwaitFrames => MoveCaseBudget { initial_frames_ms: took_ms, ..self },
            Step::Promote { timed } => if timed {
                MoveCaseBudget { action_raise_ms: took_ms, ..self }
            } else {
                self
            },
            Step::RequestMove { .. } => MoveCaseBudget { move_request_ms: took_ms, ..self },
            Step::AwaitAnchored(_) => MoveCaseBudget { settle_wait_ms: took_ms, ..self },
            _ => self,
        }
    }

    fn note(&mut self, step: Step, took_ms: u64)
        ensures
            *final(self) == old(self).noted(step, took_ms),
    {
        match step {
            Step::PumpFor { .. } => {
                self.warmup_ms = took_ms;
            },
            Step::Spawn => {
                self.spawn_ms = took_ms;
            },
            Step::AwaitFrames => {
                self.initial_frames_ms = took_ms;
            },
            Step::Promote { timed } => {
                if timed {
                    self.action_raise_ms = took_ms;
                }
            },
            Step::RequestMove { .. } => {
                self.move_request_ms = took_ms;
            },
            Step::AwaitAnchored(_) => {
                self.settle_wait_ms = took_ms;
            },
            _ => {},
        }
    }
}

/// Expected and observed frame of a cell.
#[derive(Debug, Clone, Copy, PartialEq, Eq, Structural)]
pub struct CellRecord {
    /// The cell.
    pub cell: GridCell,
    /// Where the window was expected.
    pub expected: RectPx,
    /// Where it was.
    pub actual: RectPx,
    /// How far it was off.
    pub delta: RectDelta,
    /// Scale factor in hundredths.
    pub scale_centi: u32,
}

/// How far a run has come.
pub enum Phase {
    /// Steps are left.
    Running,
    /// The case has failed; the helper has to be ended first.
    Failing(Seq<char>),
    /// Every step has passed.
    Passed,
    /// The case has failed with a message.
    Failed(Seq<char>),
    /// A step has failed with an error of its own.
    Aborted,
}

/// Whether a final frame is anchored as a rule asks.
pub open spec fn anchored(rule: AnchorRule, actual: RectPx, expected: RectPx, eps: int) -> bool {
    &&& small(actual.x - expected.x, eps)
    &&& small(actual.y - expected.y, eps)
    &&& actual.h >= expected.h - eps
    &&& match rule {
        AnchorRule::FixedWidth => small(actual.w - expected.w, eps),
        AnchorRule::AtLeast => actual.w >= expected.w - eps,
    }
}

/// Whether a final frame is anchored as a rule asks.
pub fn is_anchored(rule: AnchorRule, actual: RectPx, expected: RectPx, eps: i32) -> (r: bool)
    ensures
        r == anchored(rule, actual, expected, eps as int),
{
    let e: i64 = eps as i64;
    let dx: i64 = actual.x as i64 - expected.x as i64;
    let dy: i64 = actual.y as i64 - expected.y as i64;
    let dw: i64 = actual.w as i64 - expected.w as i64;
    let dh: i64 = actual.h as i64 - expected.h as i64;
    let width_ok = match rule {
        AnchorRule::FixedWidth => -e <= dw && dw <= e,
        AnchorRule::AtLeast => dw >= -e,
    };
    -e <= dx && dx <= e && -e <= dy && dy <= e && dh >= -e && width_ok
}

/// The message about counters that a rule does not accept.
pub open spec fn counter_complaint(rule: CounterRule, counters: PlacementCountersSnapshot) -> Seq<
    char,
> {
    match rule {
        CounterRule::FirstOrderOnly => "unexpected fallback attempts (retry_opposite="@ + dec(
            counters.retry_opposite.attempts as nat,
        ) + ", fallback_smg="@ + dec(counters.fallback_smg.attempts as nat) + ")"@,
        CounterRule::OppositeOrder => if counters.retry_opposite.attempts == 0 {
            "expected opposite-order retry when force_second_attempt=true"@
        } else {
            "unexpected shrink-move-grow fallback attempts: "@ + dec(
                counters.fallback_smg.attempts as nat,
            )
        },
        CounterRule::Fallback => "expected shrink-move-grow fallback attempt to be recorded"@,
    }
}

/// Judge the counters by a rule.
pub fn judge_counters(rule: CounterRule, counters: &PlacementCountersSnapshot) -> (r: Option<String>)
    ensures
        match r {
            None => counters_pass(rule, *counters),
            Some(why) => !counters_pass(rule, *counters) && why@ == counter_complaint(
                rule,
                *counters,
            ),
        },
{
    match rule {
        CounterRule::FirstOrderOnly => {
            if counters.retry_opposite.attempts != 0 || counters.fallback_smg.attempts != 0 {
                let mut s = "unexpected fallback attempts (retry_opposite=".to_owned();
                s.append(decimal(counters.retry_opposite.attempts).as_str());
                s.append(", fallback_smg=");
                s.append(decimal(counters.fallback_smg.attempts).as_str());
                s.append(")");
                Some(s)
            } else {
                None
            }
        },
        CounterRule::OppositeOrder => {
            if counters.retry_opposite.attempts == 0 {
                Some("expected opposite-order retry when force_second_attempt=true".to_owned())
            } else if counters.fallback_smg.attempts != 0 {
                let mut s = "unexpected shrink-move-grow fallback attempts: ".to_owned();
                s.append(decimal(counters.fallback_smg.attempts).as_str());
                Some(s)
            } else {
                None
            }
        },
        CounterRule::Fallback => {
            if counters.fallback_smg.attempts == 0 {
                Some("expected shrink-move-grow fallback attempt to be recorded".to_owned())
            } else {
                None
            }
        },
    }
}

/// What a run knows.
pub struct CaseView {
    /// Name of the case.
    pub case: Seq<char>,
    /// The steps.
    pub steps: Seq<Step>,
    /// Tolerance in pixels.
    pub eps: i32,
    /// The step to perform.
    pub at: int,
    /// Where the window is expected.
    pub expected: RectPx,
    /// The last frames.
    pub frames: Option<Frames>,
    /// Why the wait for an anchored frame failed.
    pub overdue: Option<Seq<char>>,
    /// Files written, in the order of the message that names them.
    pub artifacts: Seq<Seq<char>>,
    /// Frames noted per cell.
    pub cells: Seq<CellRecord>,
    /// The last counters.
    pub counters: Option<PlacementCountersSnapshot>,
    /// Time per phase.
    pub budget: MoveCaseBudget,
    /// How far the run has come.
    pub phase: Phase,
}

/// The message about a report that does not belong to its step.
pub open spec fn nothing_seen() -> Seq<char> {
    "observation missing"@
}

/// What a failed wait is called in the message of a move case.
pub open spec fn overdue_text(case: Seq<char>, why: Seq<char>) -> Seq<char> {
    "invalid test state: "@ + wait_failure_text(case, why)
}

/// The details that a move case reports.
pub open spec fn anchor_info(overdue: Option<Seq<char>>) -> Seq<char> {
    match overdue {
        None => "checks=left,bottom,min_width,min_height"@,
        Some(why) => "checks=left,bottom,min_width,min_height; wait_err="@ + why,
    }
}

impl CaseView {
    /// Whether a step is left to perform.
    pub open spec fn active(self) -> bool {
        match self.phase {
            Phase::Running => 0 <= self.at < self.steps.len() && !self.is_inward(self.steps[self.at]),
            Phase::Failing(_) => true,
            _ => false,
        }
    }

    /// Whether a step needs no help from outside.
    pub open spec fn is_inward(self, step: Step) -> bool {
        match step {
            Step::ExpectCell(_) | Step::ExpectCurrent | Step::JudgeCounters(_) | Step::AssertFrame
            | Step::JudgeAnchored(_) | Step::RecordCell(_) => true,
            Step::FallbackFrames => self.overdue is None,
            _ => false,
        }
    }

    /// The step to hand out.
    pub open spec fn step(self) -> Step {
        match self.phase {
            Phase::Failing(_) => Step::Shutdown,
            _ => self.steps[self.at],
        }
    }

    /// The run at the next step.
    pub open spec fn moved(self) -> CaseView {
        CaseView { at: self.at + 1, ..self }
    }

    /// The run after a failure.
    pub open spec fn failed(self, why: Seq<char>) -> CaseView {
        CaseView { phase: Phase::Failed(why), ..self }
    }

    /// The run after an inward step.
    pub open spec fn inward(self, screens: &ScreenLayout) -> CaseView {
        match self.steps[self.at] {
            Step::ExpectCell(cell) => match self.frames {
                None => self.failed(nothing_seen()),
                Some(frames) => match cell_on_screen(screens, frames, cell) {
                    Some(rect) => CaseView { expected: rect, ..self.moved() },
                    None => self.failed("visible frame not resolved"@),
                },
            },
            Step::ExpectCurrent => match self.frames {
                None => self.failed(nothing_seen()),
                Some(frames) => CaseView { expected: frames.authoritative, ..self.moved() },
            },
            Step::AssertFrame => match self.frames {
                None => self.failed(nothing_seen()),
                Some(frames) => if px_match(frames.authoritative, self.expected, self.eps as int) {
                    self.moved()
                } else {
                    self.failed(mismatch_text(self.case, self.expected, frames, self.eps))
                },
            },
            Step::RecordCell(cell) => match self.frames {
                None => self.failed(nothing_seen()),
                Some(frames) => CaseView {
                    cells: self.cells.push(
                        CellRecord {
                            cell,
                            expected: self.expected,
                            actual: frames.authoritative,
                            delta: self.expected.delta_to(frames.authoritative),
                            scale_centi: frames.scale_centi,
                        },
                    ),
                    ..self.moved()
                },
            },
            Step::JudgeCounters(rule) => match self.counters {
                None => self.failed(nothing_seen()),
                Some(counters) => if counters_pass(rule, counters) {
                    self.moved()
                } else {
                    self.failed(counter_complaint(rule, counters))
                },
            },
            Step::JudgeAnchored(rule) => if self.overdue is None && self.frames is Some && anchored(
                rule,
                self.frames->0.authoritative,
                self.expected,
                self.eps as int,
            ) {
                self.moved()
            } else {
                CaseView { phase: Phase::Failing(self.anchor_failure()), ..self }
            },
            _ => self.moved(),
        }
    }

    /// The message of a move case that has failed.
    pub open spec fn anchor_failure(self) -> Seq<char> {
        frame_failure_text(
            self.case,
            self.expected,
            match self.frames {
                Some(frames) => Some(frames.authoritative),
                None => None,
            },
            match self.frames {
                Some(frames) => frames.scale_centi,
                None => 100,
            },
            self.eps,
            self.artifacts,
            anchor_info(self.overdue),
        )
    }

    /// The run after the inward steps that come next.
    pub open spec fn resolved(self, screens: &ScreenLayout) -> CaseView
        decreases self.steps.len() - self.at,
    {
        if !(self.phase is Running) {
            self
        } else if self.at < 0 || self.at >= self.steps.len() {
            CaseView { phase: Phase::Passed, ..self }
        } else if self.is_inward(self.steps[self.at]) {
            let next = self.inward(screens);
            if next.phase is Running {
                next.resolved(screens)
            } else {
                next
            }
        } else {
            self
        }
    }

    /// The run after the step at hand was performed, before the next inward steps.
    pub open spec fn reported(self, seen: Observation, took_ms: u64) -> CaseView {
        let noted = CaseView { budget: self.budget.noted(self.step(), took_ms), ..self };
        match self.phase {
            Phase::Failing(why) => self.failed(why),
            _ => match self.step() {
                Step::AwaitFrames | Step::AwaitExpected => match seen {
                    Observation::Seen(frames) => CaseView { frames: Some(frames), ..noted.moved() },
                    Observation::Overdue(why) => self.failed(wait_failure_text(self.case, why@)),
                    _ => self.failed(nothing_seen()),
                },
                Step::AwaitActiveSpace { .. } => match seen {
                    Observation::Overdue(why) => self.failed(wait_failure_text(self.case, why@)),
                    _ => noted.moved(),
                },
                Step::ReadFrames { missing } => match seen {
                    Observation::Seen(frames) => CaseView { frames: Some(frames), ..noted.moved() },
                    _ => self.failed(missing@),
                },
                Step::AwaitAnchored(_) => match seen {
                    Observation::Seen(frames) => CaseView {
                        frames: Some(frames),
                        overdue: None,
                        ..noted.moved()
                    },
                    Observation::Overdue(why) => CaseView {
                        frames: None,
                        overdue: Some(overdue_text(self.case, why@)),
                        ..noted.moved()
                    },
                    _ => self.failed(nothing_seen()),
                },
                Step::FallbackFrames => CaseView {
                    frames: match seen {
                        Observation::Seen(frames) => Some(frames),
                        _ => None,
                    },
                    ..noted.moved()
                },
                Step::ReadCounters => match seen {
                    Observation::Counted(counters) => if counters.primary.attempts == 0 {
                        self.failed("expected at least one primary placement attempt"@)
                    } else {
                        CaseView { counters: Some(counters), ..noted.moved() }
                    },
                    _ => self.failed(nothing_seen()),
                },
                Step::Diagnostics => match seen {
                    Observation::Written(path) => CaseView {
                        artifacts: seq![path@] + self.artifacts,
                        ..noted.moved()
                    },
                    _ => noted.moved(),
                },
                Step::WriteBudget | Step::WriteCounters => match seen {
                    Observation::Written(path) => CaseView {
                        artifacts: self.artifacts.push(path@),
                        ..noted.moved()
                    },
                    _ => noted.moved(),
                },
                _ => noted.moved(),
            },
        }
    }

    /// The run after a report, at the next step to hand out or at its end.
    pub open spec fn after(
        self,
        report: Result<Observation, Error>,
        took_ms: u64,
        screens: &ScreenLayout,
    ) -> CaseView {
        match report {
            Ok(seen) => self.reported(seen, took_ms).resolved(screens),
            Err(_) => CaseView { phase: Phase::Aborted, ..self },
        }
    }
}

/// What to do next.
#[derive(Debug)]
pub enum CaseAction {
    /// Perform a step and report.
    Perform(Step),
    /// The case is over.
    Finish(Result<(), Error>),
}

/// Whether an action is what the state of a run calls for. An error that a step
/// reported is handed on.
pub open spec fn calls_for(
    v: CaseView,
    handed_on: Option<Error>,
    action: CaseAction,
) -> bool {
    match v.phase {
        Phase::Running | Phase::Failing(_) => action == CaseAction::Perform(v.step()),
        Phase::Passed => action == CaseAction::Finish(Ok(())),
        Phase::Failed(why) => action matches CaseAction::Finish(Err(e)) && is_invalid(e, why),
        Phase::Aborted => handed_on matches Some(e) ==> action == CaseAction::Finish(Err(e)),
    }
}

/// The run of a placement case.
#[derive(Debug)]
pub struct CaseRun {
    case: String,
    steps: Vec<Step>,
    eps: i32,
    at: usize,
    expected: RectPx,
    frames: Option<Frames>,
    overdue: Option<String>,
    artifacts: Vec<String>,
    cells: Vec<CellRecord>,
    counters: Option<PlacementCountersSnapshot>,
    budget: MoveCaseBudget,
    failing: Option<String>,
    screens: ScreenLayout,
}

/// What became of the inward steps.
enum Inward {
    Go,
    Passed,
    Failed(String),
    Failing,
}

impl CaseRun {
    closed spec fn with_phase(&self, phase: Phase) -> CaseView {
        CaseView {
            case: self.case@,
            steps: self.steps@,
            eps: self.eps,
            at: self.at as int,
            expected: self.expected,
            frames: self.frames,
            overdue: match self.overdue {
                Some(why) => Some(why@),
                None => None,
            },
            artifacts: texts(self.artifacts@),
            cells: self.cells@,
            counters: self.counters,
            budget: self.budget,
            phase,
        }
    }

    /// What the run knows.
    pub closed spec fn known(&self) -> CaseView {
        self.with_phase(
            match self.failing {
                Some(why) => Phase::Failing(why@),
                None => Phase::Running,
            },
        )
    }

    /// The screens of the desktop.
    pub closed spec fn desktop(&self) -> ScreenLayout {
        self.screens
    }

    /// Whether cells can be laid out.
    pub open spec fn valid(&self) -> bool {
        self.desktop().on_desktop() && cells_in_grid(self.known().steps)
    }

    /// Where the window is expected.
    pub fn expected(&self) -> (r: RectPx)
        ensures
            r == self.known().expected,
    {
        self.expected
    }

    /// Time per phase.
    pub fn budget(&self) -> (r: MoveCaseBudget)
        ensures
            r == self.known().budget,
    {
        self.budget
    }

    /// Frames noted per cell.
    pub fn cells(&self) -> (r: &[CellRecord])
        ensures
            r@ == self.known().cells,
    {
        self.cells.as_slice()
    }

    /// The last counters.
    pub fn counters(&self) -> (r: Option<PlacementCountersSnapshot>)
        ensures
            r == self.known().counters,
    {
        self.counters
    }

    fn message_of_anchor(&self) -> (s: String)
        ensures
            s@ == self.known().anchor_failure(),
    {
        let info = match &self.overdue {
            None => "checks=left,bottom,min_width,min_height".to_owned(),
            Some(why) => {
                let mut s = "checks=left,bottom,min_width,min_height; wait_err=".to_owned();
                s.append(why.as_str());
                s
            },
        };
        let (actual, scale): (Option<RectPx>, u32) = match self.frames {
            Some(frames) => (Some(frames.authoritative), frames.scale_centi),
            None => (None, 100),
        };
        format_frame_failure(
            self.case.as_str(),
            self.expected,
            actual,
            scale,
            self.eps,
            &self.artifacts,
            info.as_str(),
        )
    }

    fn judge_anchor(&self, rule: AnchorRule) -> (r: bool)
        ensures
            r == (self.known().overdue is None && self.known().frames is Some && anchored(
                rule,
                self.known().frames->0.authoritative,
                self.known().expected,
                self.known().eps as int,
            )),
    {
        if self.overdue.is_some() {
            return false;
        }
        match self.frames {
            Some(frames) => is_anchored(rule, frames.authoritative, self.expected, self.eps),
            None => false,
        }
    }

    fn inward_step(&mut self) -> (r: Inward)
        requires
            old(self).failing is None,
            old(self).at < old(self).steps@.len(),
            old(self).known().is_inward(old(self).steps@[old(self).at as int]),
            old(self).valid(),
        ensures
            final(self).desktop() == old(self).desktop(),
            final(self).steps@ == old(self).steps@,
            match r {
                Inward::Go => final(self).failing is None && final(self).known() == old(
                    self,
                ).known().inward(&old(self).desktop()) && final(self).at == old(self).at + 1,
                Inward::Passed => false,
                Inward::Failed(why) => final(self).with_phase(Phase::Failed(why@)) == old(
                    self,
                ).known().inward(&old(self).desktop()),
                Inward::Failing => final(self).failing is Some && final(self).known() == old(
                    self,
                ).known().inward(&old(self).desktop()),
            },
    {
        let count: usize = self.steps.len();
        assert(self.at < count);
        let step = self.steps[self.at];
        match step {
            Step::ExpectCell(cell) => match self.frames {
                None => Inward::Failed("observation missing".to_owned()),
                Some(frames) => {
                    assert(cell.in_grid());
                    match grid_rect_from_frames(&self.screens, &frames, cell) {
                        Ok(rect) => {
                            self.expected = rect;
                            self.at = self.at + 1;
                            Inward::Go
                        },
                        Err(_) => Inward::Failed("visible frame not resolved".to_owned()),
                    }
                },
            },
            Step::ExpectCurrent => match self.frames {
                None => Inward::Failed("observation missing".to_owned()),
                Some(frames) => {
                    self.expected = frames.authoritative;
                    self.at = self.at + 1;
                    Inward::Go
                },
            },
            Step::AssertFrame => match self.frames {
                None => Inward::Failed("observation missing".to_owned()),
                Some(frames) => {
                    match assert_frame_matches(
                        self.case.as_str(),
                        self.expected,
                        &frames,
                        self.eps,
                    ) {
                        Ok(()) => {
                            self.at = self.at + 1;
                            Inward::Go
                        },
                        Err(Error::InvalidState(why)) => Inward::Failed(why),
                        Err(_) => Inward::Failed(String::new()),
                    }
                },
            },
            Step::RecordCell(cell) => match self.frames {
                None => Inward::Failed("observation missing".to_owned()),
                Some(frames) => {
                    let record = CellRecord {
                        cell,
                        expected: self.expected,
                        actual: frames.authoritative,
                        delta: self.expected.delta(&frames.authoritative),
                        scale_centi: frames.scale_centi,
                    };
                    self.cells.push(record);
                    self.at = self.at + 1;
                    Inward::Go
                },
            },
            Step::JudgeCounters(rule) => match self.counters {
                None => Inward::Failed("observation missing".to_owned()),
                Some(counters) => {
                    match judge_counters(rule, &counters) {
                        None => {
                            self.at = self.at + 1;
                            Inward::Go
                        },
                        Some(why) => Inward::Failed(why),
                    }
                },
            },
            Step::JudgeAnchored(rule) => {
                if self.judge_anchor(rule) {
                    self.at = self.at + 1;
                    Inward::Go
                } else {
                    let why = self.message_of_anchor();
                    self.failing = Some(why);
                    Inward::Failing
                }
            },
            _ => {
                self.at = self.at + 1;
                Inward::Go
            },
        }
    }

    fn resolve(&mut self) -> (r: Inward)
        requires
            old(self).failing is None,
            old(self).valid(),
        ensures
            final(self).desktop() == old(self).desktop(),
            final(self).steps@ == old(self).steps@,
            match r {
                Inward::Go => final(self).failing is None && final(self).known() == old(
                    self,
                ).known().resolved(&old(self).desktop()) && final(self).known().active(),
                Inward::Passed => final(self).with_phase(Phase::Passed) == old(
                    self,
                ).known().resolved(&old(self).desktop()),
                Inward::Failed(why) => final(self).with_phase(Phase::Failed(why@)) == old(
                    self,
                ).known().resolved(&old(self).desktop()),
                Inward::Failing => final(self).failing is Some && final(self).known() == old(
                    self,
                ).known().resolved(&old(self).desktop()),
            },
    {
        let ghost goal = self.known().resolved(&self.desktop());
        loop
            invariant
                self.failing is None,
                self.valid(),
                self.desktop() == old(self).desktop(),
                self.steps@ == old(self).steps@,
                self.known().resolved(&self.desktop()) == goal,
                goal == old(self).known().resolved(&old(self).desktop()),
            decreases self.steps@.len() - self.at,
        {
            if self.at >= self.steps.len() {
                return Inward::Passed;
            }
            let step = self.steps[self.at];
            let inward = match step {
                Step::ExpectCell(_) => true,
                Step::ExpectCurrent => true,
                Step::JudgeCounters(_) => true,
                Step::AssertFrame => true,
                Step::JudgeAnchored(_) => true,
                Step::RecordCell(_) => true,
                Step::FallbackFrames => self.overdue.is_none(),
                _ => false,
            };
            assert(inward == self.known().is_inward(step));
            if !inward {
                return Inward::Go;
            }
            match self.inward_step() {
                Inward::Go => {},
                Inward::Passed => return Inward::Passed,
                Inward::Failed(why) => return Inward::Failed(why),
                Inward::Failing => return Inward::Failing,
            }
        }
    }

    fn next_action(&mut self) -> (r: CaseAction)
        requires
            old(self).failing is None,
            old(self).valid(),
        ensures
            final(self).desktop() == old(self).desktop(),
            final(self).steps@ == old(self).steps@,
            calls_for(old(self).known().resolved(&old(self).desktop()), None, r),
            r is Perform ==> final(self).known() == old(self).known().resolved(
                &old(self).desktop(),
            ),
            r is Perform ==> final(self).known().active(),
    {
        match self.resolve() {
            Inward::Go => CaseAction::Perform(self.steps[self.at]),
            Inward::Passed => CaseAction::Finish(Ok(())),
            Inward::Failed(why) => CaseAction::Finish(Err(Error::InvalidState(why))),
            Inward::Failing => CaseAction::Perform(Step::Shutdown),
        }
    }

    /// Begin a case under its plan. Returns the run and what to do first.
    pub fn start(case: String, plan: CasePlan, screens: ScreenLayout) -> (r: (Self, CaseAction))
        requires
            screens.on_desktop(),
            cells_in_grid(plan.steps@),
        ensures
            r.0.desktop() == screens,
            ({
                let begun = CaseView {
                    case: case@,
                    steps: plan.steps@,
                    eps: plan.eps,
                    at: 0,
                    expected: plan.expected,
                    frames: None,
                    overdue: None,
                    artifacts: Seq::empty(),
                    cells: Seq::empty(),
                    counters: None,
                    budget: MoveCaseBudget {
                        warmup_ms: 0,
                        spawn_ms: 0,
                        initial_frames_ms: 0,
                        action_raise_ms: 0,
                        move_request_ms: 0,
                        settle_wait_ms: 0,
                    },
                    phase: Phase::Running,
                };
                &&& calls_for(begun.resolved(&screens), None, r.1)
                &&& r.1 is Perform ==> r.0.known() == begun.resolved(&screens)
                &&& r.1 is Perform ==> r.0.valid() && r.0.known().active()
            }),
    {
        let mut run = CaseRun {
            case,
            steps: plan.steps,
            eps: plan.eps,
            at: 0,
            expected: plan.expected,
            frames: None,
            overdue: None,
            artifacts: Vec::new(),
            cells: Vec::new(),
            counters: None,
            budget: MoveCaseBudget {
                warmup_ms: 0,
                spawn_ms: 0,
                initial_frames_ms: 0,
                action_raise_ms: 0,
                move_request_ms: 0,
                settle_wait_ms: 0,
            },
            failing: None,
            screens,
        };
        assert(texts(run.artifacts@) =~= Seq::empty());
        let action = run.next_action();
        (run, action)
    }

    fn absorb(&mut self, seen: Observation, took_ms: u64) -> (r: Option<String>)
        requires
            old(self).failing is None,
            old(self).known().active(),
        ensures
            final(self).desktop() == old(self).desktop(),
            final(self).steps@ == old(self).steps@,
            match r {
                None => final(self).failing is None && final(self).known() == old(
                    self,
                ).known().reported(seen, took_ms),
                Some(why) => old(self).known().reported(seen, took_ms) == old(self).known().failed(
                    why@,
                ),
            },
    {
        let count: usize = self.steps.len();
        assert(self.at < count);
        let step = self.steps[self.at];
        let ghost before = self.known();
        match step {
            Step::AwaitFrames | Step::AwaitExpected => match seen {
                Observation::Seen(frames) => {
                    self.frames = Some(frames);
                },
                Observation::Overdue(why) => {
                    return Some(self.wait_message(why.as_str()));
                },
                _ => {
                    return Some("observation missing".to_owned());
                },
            },
            Step::AwaitActiveSpace { .. } => match seen {
                Observation::Overdue(why) => {
                    return Some(self.wait_message(why.as_str()));
                },
                _ => {},
            },
            Step::ReadFrames { missing } => match seen {
                Observation::Seen(frames) => {
                    self.frames = Some(frames);
                },
                _ => {
                    return Some(missing.to_owned());
                },
            },
            Step::AwaitAnchored(_) => match seen {
                Observation::Seen(frames) => {
                    self.frames = Some(frames);
                    self.overdue = None;
                },
                Observation::Overdue(why) => {
                    self.frames = None;
                    let mut s = "invalid test state: ".to_owned();
                    s.append(self.wait_message(why.as_str()).as_str());
                    self.overdue = Some(s);
                },
                _ => {
                    return Some("observation missing".to_owned());
                },
            },
            Step::FallbackFrames => match seen {
                Observation::Seen(frames) => {
                    self.frames = Some(frames);
                },
                _ => {
                    self.frames = None;
                },
            },
            Step::ReadCounters => match seen {
                Observation::Counted(counters) => {
                    if counters.primary.attempts == 0 {
                        return Some("expected at least one primary placement attempt".to_owned());
                    }
                    self.counters = Some(counters);
                },
                _ => {
                    return Some("observation missing".to_owned());
                },
            },
            Step::Diagnostics => match seen {
                Observation::Written(path) => {
                    self.artifacts.insert(0, path);
                    assert(texts(self.artifacts@) =~= seq![path@] + before.artifacts);
                },
                _ => {},
            },
            Step::WriteBudget | Step::WriteCounters => match seen {
                Observation::Written(path) => {
                    self.artifacts.push(path);
                    assert(texts(self.artifacts@) =~= before.artifacts.push(path@));
                },
                _ => {},
            },
            _ => {},
        }
        self.budget.note(step, took_ms);
        self.at = self.at + 1;
        None
    }

    fn wait_message(&self, why: &str) -> (s: String)
        ensures
            s@ == wait_failure_text(self.known().case, why@),
    {
        let mut s = "case=".to_owned();
        s.append(self.case.as_str());
        s.append(" wait_error=");
        s.append(why);
        s
    }

    /// Take in the report on the step at hand, and say what to do next.
    pub fn next(&mut self, report: Result<Observation, Error>, took_ms: u64) -> (r: CaseAction)
        requires
            old(self).valid(),
            old(self).known().active(),
        ensures
            final(self).desktop() == old(self).desktop(),
            ({
                let after = old(self).known().after(report, took_ms, &old(self).desktop());
                let handed_on = match report {
                    Err(e) => Some(e),
                    Ok(_) => None,
                };
                &&& calls_for(after, handed_on, r)
                &&& r is Perform ==> final(self).known() == after
                &&& r is Perform ==> final(self).valid() && final(self).known().active()
            }),
    {
        match report {
            Err(e) => CaseAction::Finish(Err(e)),
            Ok(seen) => {
                match &self.failing {
                    Some(why) => CaseAction::Finish(Err(Error::InvalidState(why.clone()))),
                    None => match self.absorb(seen, took_ms) {
                        Some(why) => CaseAction::Finish(Err(Error::InvalidState(why))),
                        None => self.next_action(),
                    },
                }
            },
        }
    }
}

/// Watch that the window stays where it is expected: one look.
pub fn ensure_frame_stability(
    case: &str,
    expected: RectPx,
    frames: Option<Frames>,
    eps: i32,
    watch_ms: u64,
) -> (r: Result<(), Error>)
    ensures
        match frames {
            None => r matches Err(e) && is_invalid(e, "authoritative frame unavailable"@),
            Some(seen) => if px_match(seen.authoritative, expected, eps as int) {
                r is Ok
            } else {
                r matches Err(e) && is_invalid(
                    e,
                    frame_failure_text(
                        case@,
                        expected,
                        Some(seen.authoritative),
                        seen.scale_centi,
                        eps,
                        Seq::empty(),
                        "check=stability duration_ms="@ + dec(watch_ms as nat),
                    ),
                )
            },
        },
{
    match frames {
        None => Err(Error::invalid("authoritative frame unavailable")),
        Some(seen) => {
            if rect_matches(seen.authoritative, expected, eps) {
                return Ok(());
            }
            let mut info = "check=stability duration_ms=".to_owned();
            info.append(decimal(watch_ms).as_str());
            let none: Vec<String> = Vec::new();
            assert(texts(none@) =~= Seq::empty());
            Err(
                Error::InvalidState(
                    format_frame_failure(
                        case,
                        expected,
                        Some(seen.authoritative),
                        seen.scale_centi,
                        eps,
                        &none,
                        info.as_str(),
                    ),
                ),
            )
        },
    }
}

} // verus!
