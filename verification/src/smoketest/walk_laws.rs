//! What the tests that walk a window through the system are good for.

use vstd::prelude::*;

use crate::geom::Rect;
use crate::pick::{first_where, first_where_is_first};
use crate::smoketest::error::Error;
use crate::smoketest::focus_test::{
    listen_for_focus, FocusNews, FocusStep, FocusTest, FocusTestAction, FocusTestEvent,
    FocusTestStage,
};
use crate::smoketest::frames::WindowMode;
use crate::smoketest::fullscreen::{
    FullscreenAction, FullscreenEvent, FullscreenRun, FullscreenStage, FullscreenTuning,
    FullscreenVerdict,
};
use crate::smoketest::hide_case::{HideAction, HideEvent, HideRun, HideStage, HideVerdict};
use crate::smoketest::hide_test::{
    helper_ready, helper_time, hide_test_answer, moved_back, moved_off, target_x, HideTest,
    HideTestAction, HideTestEvent, HideTestResult, HideTestStage, Stroke,
};
use crate::smoketest::raise_test::{
    next_stage, raise_answer, stage_action, RaiseAction, RaiseEvent, RaiseResult, RaiseStage,
    RaiseTest, RaiseWindows,
};
use crate::smoketest::scenario::{has_label, label_at, ScenarioWindow};
use crate::smoketest::scenario_run::{
    position_of, ScenarioAction, ScenarioEvent, ScenarioRun,
};
use crate::window::WindowInfo;

verus! {

/// A helper outlives the test by what was asked for, as far as a number can say so.
pub proof fn helpers_outlive_the_test(timeout_ms: u64, extra_ms: u64, r: u64)
    requires
        call_ensures(helper_time, (timeout_ms, extra_ms), r),
    ensures
        r >= timeout_ms,
        r >= extra_ms,
        r < u64::MAX ==> r - timeout_ms == extra_ms,
{
}

/// A helper is there when its application says so, or when a window of its process
/// with its title is listed; another process or another title does not do.
pub proof fn helpers_are_known_by_process_and_title(
    windows: Vec<WindowInfo>,
    pid: i32,
    title: &str,
    reported: bool,
    r: bool,
)
    requires
        call_ensures(helper_ready, (&windows, pid, title, reported), r),
    ensures
        reported ==> r,
        forall|i: int|
            0 <= i < windows@.len() && (#[trigger] windows@[i]).pid == pid && windows@[i].title@
                == title@ ==> r,
        (!reported && forall|i: int|
            0 <= i < windows@.len() ==> (#[trigger] windows@[i]).pid != pid || windows@[i].title@
                != title@) ==> !r,
{
}

/// A hidden window leaves one point of itself at the right edge of the screen; where
/// no screen is known it moves by the offset.
pub proof fn one_point_of_a_hidden_window_shows(
    frame: Rect,
    visible: Option<Rect>,
    offset: i32,
    r: i128,
)
    requires
        call_ensures(target_x, (frame, visible, offset), r),
    ensures
        visible is Some ==> visible->Some_0.x + visible->Some_0.w - r == 1024,
        visible is None ==> r - frame.x == 1024 * offset,
{
}

/// A window has moved when it is more than two points from where it was, or within six
/// points of where it should go.
pub proof fn moving_takes_more_than_two_points(left: i64, start: Rect, target: i128, r: bool)
    requires
        -8 * i64::MAX <= target <= 8 * i64::MAX,
        call_ensures(moved_off, (left, start, target), r),
    ensures
        left - start.x > 2048 ==> r,
        start.x - left > 2048 ==> r,
        -6144 <= left - target <= 6144 ==> r,
        r ==> left - start.x > 2048 || start.x - left > 2048 || -6144 <= left - target <= 6144,
{
}

/// A window is back when no side of it is more than eight points from where it was.
pub proof fn coming_back_means_every_side(frame: Rect, start: Rect, r: bool)
    requires
        call_ensures(moved_back, (frame, start), r),
    ensures
        r <==> (-8192 <= frame.x - start.x <= 8192 && -8192 <= frame.y - start.y <= 8192 && -8192
            <= frame.w - start.w <= 8192 && -8192 <= frame.h - start.h <= 8192),
{
}

/// The hide test passes only on a sight of the window with every side within eight
/// points of where it was measured; and such a sight is never held against it.
pub proof fn the_hide_test_passes_on_a_window_back_in_place(
    before: HideTest,
    event: HideTestEvent,
    now: u64,
    after: HideTest,
    action: HideTestAction,
)
    requires
        hide_test_answer(before, event, now, after, action),
        before.stage is Returning,
    ensures
        after.stage == HideTestStage::Cleaning(HideTestResult::Passed) <==> (event is Frame
            && event->Frame_0 is Some && ({
            let f = event->Frame_0->Some_0;
            &&& -8192 <= f.x - before.start.x <= 8192
            &&& -8192 <= f.y - before.start.y <= 8192
            &&& -8192 <= f.w - before.start.w <= 8192
            &&& -8192 <= f.h - before.start.h <= 8192
        })),
        after.stage == HideTestStage::Cleaning(HideTestResult::NotRestored) ==> event is Rested
            && now >= before.deadline,
{
}

/// What was measured at first is what the window is held to: only the two measuring
/// steps change it, and they take what was seen.
pub proof fn measures_are_taken_once(
    before: HideTest,
    event: HideTestEvent,
    now: u64,
    after: HideTest,
    action: HideTestAction,
)
    requires
        hide_test_answer(before, event, now, after, action),
        !(before.stage is Over) && !(before.stage is Cleaning),
        !(after.stage is Over),
    ensures
        before.stage is Measuring && event is Frame && event->Frame_0 is Some ==> after.start
            == event->Frame_0->Some_0,
        !(before.stage is Measuring) ==> after.start == before.start,
        before.stage is Aiming && event is Screen && event->Screen_0 is Some ==> after.target
            + 1024 == event->Screen_0->Some_0.x + event->Screen_0->Some_0.w,
        before.stage is Hiding || before.stage is Moving || before.stage is Showing ==> after.target
            == before.target,
{
}

/// The window is given a quarter of the time to move and a third to come back, and
/// never less than the least time for it.
pub proof fn the_window_has_its_time(
    before: HideTest,
    event: HideTestEvent,
    now: u64,
    after: HideTest,
    action: HideTestAction,
)
    requires
        hide_test_answer(before, event, now, after, action),
        !(event is Failed),
    ensures
        before.stage is Hiding ==> {
            &&& after.deadline - now >= before.tuning.hide_min_timeout_ms * 1_000_000
            &&& 4 * (after.deadline - now) > (before.timeout_ms - 4) * 1_000_000
            &&& after.deadline - now == before.tuning.hide_min_timeout_ms * 1_000_000 || 4 * (
            after.deadline - now) <= before.timeout_ms * 1_000_000
        },
        before.stage is Showing ==> {
            &&& after.deadline - now >= before.tuning.hide_secondary_min_timeout_ms * 1_000_000
            &&& 3 * (after.deadline - now) > (before.timeout_ms - 3) * 1_000_000
            &&& after.deadline - now == before.tuning.hide_secondary_min_timeout_ms * 1_000_000
                || 3 * (after.deadline - now) <= before.timeout_ms * 1_000_000
        },
{
}

/// Hiding is typed as the menu key and then the key that hides; showing opens the menu
/// again and types the key that shows.
pub proof fn the_right_keys_are_typed(
    before: HideTest,
    event: HideTestEvent,
    now: u64,
    after: HideTest,
    action: HideTestAction,
)
    requires
        hide_test_answer(before, event, now, after, action),
        action is Type,
    ensures
        after.stage is Hiding || after.stage is Showing,
        after.stage is Hiding ==> {
            let keys = action->Type_0@;
            keys.len() == 3 && keys[0] == Stroke::Key("h") && keys[1] is Pause && keys[2]
                == Stroke::Key("o")
        },
        after.stage is Showing ==> {
            let keys = action->Type_0@;
            keys.len() == 6 && keys[0] is Pause && keys[1] == Stroke::Key("shift+cmd+0") && keys[2]
                is Pause && keys[3] == Stroke::Key("h") && keys[4] is Pause && keys[5]
                == Stroke::Key("f")
        },
        after.stage is Showing && before.stage is Moving ==> event is Position && event->Position_0
            is Some && ({
            let left = event->Position_0->Some_0;
            left - before.start.x > 2048 || before.start.x - left > 2048 || -6144 <= left
                - before.target <= 6144
        }),
{
}

/// A test that did not pass ends with an error, one that did ends well, and a step
/// that has failed ends the test with its own error.
pub proof fn the_hide_test_ends_as_it_went(
    before: HideTest,
    event: HideTestEvent,
    now: u64,
    after: HideTest,
    action: HideTestAction,
)
    requires
        hide_test_answer(before, event, now, after, action),
        !(before.stage is Over),
    ensures
        action is Finish <==> after.stage is Over,
        before.stage is Cleaning ==> action is Finish && (action->Finish_0 is Ok <==> before.stage
            == HideTestStage::Cleaning(HideTestResult::Passed)),
        !(before.stage is Cleaning) && action is Finish ==> action->Finish_0 is Err,
        !(before.stage is Cleaning) && event is Failed ==> action == HideTestAction::Finish(
            Err::<(), Error>(event->Failed_0),
        ),
        after.stage is Cleaning && !(before.stage is Cleaning) ==> action is EndSession,
{
}

/// The hide case asks for hiding only of a window in its normal state, and for showing
/// only of a window that was seen hidden.
pub proof fn the_hide_case_waits_for_the_window(run: HideRun, event: HideEvent)
    requires
        run.verdict(event) is Go,
        run.stage != run.verdict(event)->Go_0,
    ensures
        run.verdict(event)->Go_0 is Hiding <==> run.stage is Readying && event is Seen
            && event->Seen_0.mode == WindowMode::Normal,
        run.verdict(event)->Go_0 is Showing <==> run.stage is Vanishing && event is Seen
            && event->Seen_0.mode == WindowMode::Hidden,
        run.verdict(event)->Go_0 is Vanishing ==> run.stage is Hiding && event is Accepted && (
        event->Accepted_0 is None || event->Accepted_0 == Some(run.target)),
        run.verdict(event)->Go_0 is Returning ==> run.stage is Showing && event is Accepted && (
        event->Accepted_0 is None || event->Accepted_0 == Some(run.target)),
        run.verdict(event)->Go_0 is Over ==> run.stage is Ending && event is Done,
{
}

/// The hide case comes to its end only on a window in its normal state with every side
/// within the tolerance of where it stood at first.
pub proof fn the_hide_case_ends_on_a_window_in_place(run: HideRun, event: HideEvent)
    requires
        run.stage is Checking,
    ensures
        run.verdict(event) == HideVerdict::Go(HideStage::Ending) <==> (event is Seen && ({
            let f = event->Seen_0;
            &&& f.mode == WindowMode::Normal
            &&& -run.eps <= f.authoritative.x - run.expected.x <= run.eps
            &&& -run.eps <= f.authoritative.y - run.expected.y <= run.eps
            &&& -run.eps <= f.authoritative.w - run.expected.w <= run.eps
            &&& -run.eps <= f.authoritative.h - run.expected.h <= run.eps
        })),
        run.verdict(event) is Go ==> run.verdict(event) == HideVerdict::Go(HideStage::Ending),
{
}

/// A command that was carried out on another window fails the hide case, and so does
/// a command that was refused or a wait that was overdue.
pub proof fn the_hide_case_minds_its_window(run: HideRun, event: HideEvent)
    ensures
        (run.stage is Hiding || run.stage is Showing) && event is Accepted && event->Accepted_0
            is Some && event->Accepted_0->Some_0 != run.target ==> run.verdict(event) is Fail,
        event is Refused || event is Overdue ==> run.verdict(event) is Fail,
        event is Broken ==> run.verdict(event) is Abort,
        run.stage is Measuring && event is Seen ==> run.after(event).expected
            == event->Seen_0.authoritative,
        !(run.stage is Measuring) ==> run.after(event).expected == run.expected,
        run.after(event).target == run.target,
        run.after(event).eps == run.eps,
{
}

/// The hide case hides with the one command and shows with the other, and waits for
/// the state that each is for.
pub proof fn the_hide_case_hides_and_shows(run: HideRun)
    ensures
        run.action() == HideAction::RequestHide(true) <==> run.stage is Hiding,
        run.action() == HideAction::RequestHide(false) <==> run.stage is Showing,
        run.action() == HideAction::AwaitMode(WindowMode::Hidden) <==> run.stage is Vanishing,
        run.action() == HideAction::AwaitMode(WindowMode::Normal) <==> run.stage is Readying,
        run.action() is AwaitRestored <==> run.stage is Returning,
        run.action() is AwaitRestored ==> run.action() == HideAction::AwaitRestored(
            run.expected,
            run.eps,
        ),
        run.action() is Finish ==> run.stage is Over,
        run.action() is Shutdown <==> run.stage is Ending,
{
}

/// A window has at least five seconds to appear, and three times what a first window
/// takes where that is longer.
pub proof fn windows_have_time_to_appear(tuning: FullscreenTuning, r: u64)
    requires
        call_ensures(FullscreenTuning::visible_timeout_ms, (tuning,), r),
    ensures
        r >= 5_000,
        r < u64::MAX ==> r >= 3 * tuning.first_window_max_ms,
        r == 5_000 || r == 3 * tuning.first_window_max_ms || (r == u64::MAX && 3
            * tuning.first_window_max_ms > u64::MAX),
{
}

/// The toggle is pressed only once the frame before it was read, and the case settles
/// only on a frame that was read after it.
pub proof fn the_toggle_stands_between_two_frames(
    run: FullscreenRun,
    event: FullscreenEvent,
    now: u64,
)
    requires
        run.verdict(event, now) is To,
    ensures
        ({
            let next = run.moved(event, run.verdict(event, now)->To_0, now);
            &&& next.stage is Toggling <==> run.stage is Measuring
            &&& next.stage is Toggling ==> event is Frame && event->Frame_0 is Some && next.before
                == event->Frame_0
            &&& !(next.stage is Toggling) ==> next.before == run.before
            &&& next.stage is Reasserting ==> run.stage is Watching && event is Frame
                && event->Frame_0 is Some && next.after == event->Frame_0
            &&& !(next.stage is Reasserting) ==> next.after == run.after
            &&& run.stage is Toggling ==> next.deadline == now + run.tuning.wait_total_ms
                * 1_000_000 && next.stage is Watching
            &&& !(run.stage is Toggling) ==> next.deadline == run.deadline
            &&& next.title == run.title
            &&& next.tuning == run.tuning
        }),
{
}

/// The keys that are pressed are the one that raises the window and the one that
/// toggles it, each in its place; and what is settled on are the two frames.
pub proof fn the_keys_have_their_places(run: FullscreenRun)
    ensures
        run.action() is Press <==> run.stage is PressingRaise || run.stage is Toggling,
        run.stage is PressingRaise ==> run.action()->Press_0 == "g",
        run.stage is Toggling ==> run.action()->Press_0 == "shift+cmd+9",
        run.stage is Settling && run.before is Some && run.after is Some ==> run.action()
            == FullscreenAction::Settle(run.before->Some_0, run.after->Some_0),
        run.action() is KillHelper <==> run.stage is Ending,
        run.action() is ReadFrame <==> run.stage is Measuring || run.stage is Watching,
        run.action() is CheckAlive <==> run.stage is Probing,
        run.action() is Finish ==> run.stage is Over || run.stage is Settling,
{
}

/// While the frame cannot be read the server is probed: one that is gone ends the
/// case, one that is there is waited for, until the time is up.
pub proof fn a_gone_server_ends_the_case(run: FullscreenRun, now: u64)
    ensures
        run.stage is Probing ==> run.verdict(FullscreenEvent::Answer(false), now) is Gone
            && run.verdict(FullscreenEvent::Answer(true), now) == FullscreenVerdict::To(
            FullscreenStage::Pausing,
        ),
        run.stage is Watching && now < run.deadline ==> run.verdict(
            FullscreenEvent::Frame(None),
            now,
        ) == FullscreenVerdict::To(FullscreenStage::Probing),
        run.stage is Watching && now >= run.deadline ==> run.verdict(
            FullscreenEvent::Frame(None),
            now,
        ) is Invalid,
        run.stage is Appearing ==> run.verdict(FullscreenEvent::Answer(false), now) is NotVisible,
{
}

/// The window that a stage of the raise test is about.
pub open spec fn about_second(stage: RaiseStage) -> Option<bool> {
    match stage {
        RaiseStage::Opening(s) => Some(s),
        RaiseStage::Finding(s) => Some(s),
        RaiseStage::Raising(s) => Some(s),
        RaiseStage::Fronting(s, _) => Some(s),
        RaiseStage::Reporting(s, _) => Some(s),
        RaiseStage::Repeating(s) => Some(s),
        RaiseStage::Reopening(s) => Some(s),
        RaiseStage::Refinding(s) => Some(s),
        RaiseStage::Retrying(s) => Some(s),
        _ => None,
    }
}

/// The raise test deals with the first window until it is raised, and then with the
/// second; the first is the one it begins with.
pub proof fn windows_are_raised_in_turn(stage: RaiseStage, yes: bool)
    ensures
        about_second(stage) is None && about_second(next_stage(stage, yes)) is Some
            ==> about_second(next_stage(stage, yes)) == Some(false) && stage is Activating && yes,
        about_second(stage) == Some(true) && about_second(next_stage(stage, yes)) is Some
            ==> about_second(next_stage(stage, yes)) == Some(true),
        about_second(stage) == Some(false) && about_second(next_stage(stage, yes)) == Some(true)
            ==> yes && (stage is Fronting || stage is Reporting),
        next_stage(stage, yes) == RaiseStage::Cleaning(RaiseResult::Passed) && !(
        stage is Cleaning) ==> about_second(stage) == Some(true) && yes,
{
}

/// A window counts as not raised only after it was looked for in three rounds, at the
/// front and in the reports, and its key was typed in each.
pub proof fn three_rounds_before_giving_up(stage: RaiseStage, yes: bool, second: bool)
    requires
        next_stage(stage, yes) == RaiseStage::Cleaning(RaiseResult::NotRaised(second)),
        !(stage is Cleaning),
    ensures
        !yes,
        stage is Reporting,
        stage->Reporting_0 == second,
        stage->Reporting_1 >= 2,
{
}

/// A round is entered only after the key of the window was typed for it.
pub proof fn every_round_types_the_key(
    before: RaiseTest,
    event: RaiseEvent,
    after: RaiseStage,
    action: RaiseAction,
)
    requires
        raise_answer(before, event, after, action),
        after is Raising || after is Repeating || after is Retrying,
    ensures
        ({
            let keys = action->Type_0@;
            &&& action is Type
            &&& keys.len() > 0
            &&& keys[keys.len() - 1] == Stroke::Key(
                if about_second(after) == Some(true) {
                    "2"
                } else {
                    "1"
                },
            )
        }),
        next_stage(after, true) is Fronting && about_second(next_stage(after, true))
            == about_second(after),
        after is Raising ==> next_stage(after, true)->Fronting_1 == 0,
        after is Repeating ==> next_stage(after, true)->Fronting_1 == 1,
        after is Retrying ==> next_stage(after, true)->Fronting_1 == 2,
{
}

/// What is waited for is the window that the stage is about, for the time it has.
pub proof fn the_right_window_is_awaited(run: RaiseTest, stage: RaiseStage, action: RaiseAction)
    requires
        stage_action(run, stage, action),
    ensures
        stage is Fronting ==> action is AwaitFront && Some(action->AwaitFront_0) == about_second(
            stage,
        ) && 2 * action->AwaitFront_1 <= run.timeout_ms < 2 * action->AwaitFront_1 + 2,
        stage is Reporting ==> action is AwaitReport && Some(action->AwaitReport_0)
            == about_second(stage) && 2 * action->AwaitReport_1 <= run.timeout_ms < 2
            * action->AwaitReport_1 + 2,
        stage is Finding ==> action is AwaitWindows && action->AwaitWindows_0 == (
        if about_second(stage) == Some(true) {
            RaiseWindows::Second
        } else {
            RaiseWindows::First
        }),
        stage is Appearing ==> action is AwaitWindows && action->AwaitWindows_0
            == RaiseWindows::Both,
        stage is Cleaning ==> action is Cleanup,
{
}

/// The raise test ends well only after both windows were raised, and a step that has
/// failed ends it with its own error.
pub proof fn the_raise_test_ends_as_it_went(
    before: RaiseTest,
    event: RaiseEvent,
    after: RaiseStage,
    action: RaiseAction,
)
    requires
        raise_answer(before, event, after, action),
        !(before.stage is Over),
    ensures
        before.stage is Cleaning ==> action is Finish && (action->Finish_0 is Ok <==> before.stage
            == RaiseStage::Cleaning(RaiseResult::Passed)),
        !(before.stage is Cleaning) && event is Failed ==> action == RaiseAction::Finish(
            Err::<(), Error>(event->Failed_0),
        ),
        !(before.stage is Cleaning) && !(event is Failed) ==> !(action is Finish),
{
}

/// Only the window with the title is found in focus, with its own process; anything
/// else is listened past, and listening stops when nobody waits or the line is lost.
pub proof fn only_the_expected_window_is_found(
    done: bool,
    news: FocusNews,
    expected: &str,
    r: FocusStep,
)
    requires
        call_ensures(listen_for_focus, (done, news, expected), r),
    ensures
        r is Found ==> !done && news is Focus && news->Focus_0 is Some && r->Found_0@ == expected@
            && r->Found_0 == news->Focus_0->Some_0.0 && r->Found_1 == news->Focus_0->Some_0.1,
        !done && news is Focus && news->Focus_0 is Some && news->Focus_0->Some_0.0@ == expected@
            ==> r is Found,
        r is Stop <==> done || news is Lost,
{
}

/// The focus test tells the window that was matched, in whole milliseconds since the
/// wait began; where nothing was found it fails, and names the title it waited for.
pub proof fn the_focus_test_tells_what_was_found(
    before: FocusTest,
    found: bool,
    matched: Option<(String, i32)>,
    now: u64,
    after: FocusTest,
    action: FocusTestAction,
)
    requires
        before.stage is Stopping,
        before.answered(FocusTestEvent::Stopped(found, matched), now, after, action),
    ensures
        action is Finish,
        action->Finish_0 is Ok <==> found,
        found ==> ({
            let r = action->Finish_0->Ok_0;
            &&& matched is Some ==> r.title == matched->Some_0.0 && r.pid == matched->Some_0.1
            &&& matched is None ==> r.title == before.title && r.pid == before.pid
            &&& now >= before.started ==> r.elapsed_ms * 1_000_000 <= now - before.started < (
            r.elapsed_ms + 1) * 1_000_000
        }),
        !found ==> action->Finish_0->Err_0 == (Error::FocusNotObserved {
            timeout_ms: before.timeout_ms,
            expected: before.title,
        }),
{
}

/// The focus test looks for as long as it may, and starts a helper that outlives it.
pub proof fn the_focus_test_has_its_time(
    before: FocusTest,
    event: FocusTestEvent,
    now: u64,
    after: FocusTest,
    action: FocusTestAction,
)
    requires
        before.answered(event, now, after, action),
    ensures
        before.stage is Spawning && event is Spawned ==> after.wait.deadline - now
            == before.timeout_ms * 1_000_000 && after.started == now && after.pid
            == event->Spawned_0,
        action is SpawnHelper ==> action->SpawnHelper_0 >= before.timeout_ms && (
        action->SpawnHelper_0 < u64::MAX ==> action->SpawnHelper_0 - before.timeout_ms
            == before.extra_ms),
        before.stage is Watching && event == FocusTestEvent::Found(true) ==> after.stage
            == FocusTestStage::Stopping,
        before.stage is Watching && event == FocusTestEvent::Found(false) ==> after.stage
            == FocusTestStage::Watching,
{
}

/// A scenario goes on to wait for the focus only when the window that was raised is the
/// one found under the label of the plan, and waits for the focus of that very window.
pub proof fn the_labelled_window_is_raised(
    before: ScenarioRun,
    event: ScenarioEvent,
    after: ScenarioRun,
    action: ScenarioAction,
) -> (i: int)
    requires
        before.valid(),
        before.stage is Requesting,
        event is Answered,
        before.answered(event, after, action),
        after.stage is Focusing,
    ensures
        0 <= i < before.found@.len(),
        before.found@[i].label@ == before.plan.raises@[before.at as int]@,
        forall|j: int|
            0 <= j < i ==> (#[trigger] before.found@[j]).label@
                != before.plan.raises@[before.at as int]@,
        event->Answered_0 == Ok::<Option<(i32, u32)>, String>(
            Some((before.found@[i].pid, before.found@[i].id)),
        ),
        after.wait is Some && after.wait->Some_0.expected == (
            before.found@[i].pid,
            before.found@[i].id,
        ),
        after.at == before.at,
{
    let label = before.plan.raises@[before.at as int]@;
    let i = position_of(before.found@, label);
    the_first_label_is_there(before.found@, label);
    i
}

proof fn the_first_label_is_there(windows: Seq<ScenarioWindow>, label: Seq<char>)
    requires
        has_label(windows, label),
    ensures
        label_at(windows, label, position_of(windows, label)),
{
    let p = |w: ScenarioWindow| w.label@ == label;
    first_where_is_first(windows, p);
    let k = choose|k: int| 0 <= k < windows.len() && (#[trigger] windows[k]).label@ == label;
    if first_where(windows, p) is None {
        assert(!p(windows[k]));
    }
    let i = first_where(windows, p)->Some_0;
    assert(p(windows[i]));
    assert forall|j: int| 0 <= j < i implies (#[trigger] windows[j]).label@ != label by {
        assert(!p(windows[j]));
    }
    assert(label_at(windows, label, i));
}

} // verus!
