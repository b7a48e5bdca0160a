//! What starting helpers is good for, and the times that the harness keeps.

use vstd::prelude::*;

use crate::smoketest::bridge::{CONNECT_STEPS, EVENT_BUFFER_CAPACITY, MAX_RECONNECT_ATTEMPTS};
use crate::smoketest::config::{
    ms, DEFAULT_RUN_BUDGET_MS, FAST_DELAY_MS, POLL_INTERVAL_MS, RETRY_DELAY_MS,
};
use crate::smoketest::error::Error;
use crate::smoketest::focus_guard::MAX_ATTEMPTS;
use crate::smoketest::helper_window::{
    cell_arg, flag_arg, number_arg, pair_arg, rect_arg, text_arg, HelperEvent, HelperStep, HelperWindowBuilder, SpawnFrontmost, FRONT_ATTEMPTS,
};
use crate::smoketest::orchestrator::WATCHDOG_OVERHEAD_MS;
use crate::smoketest::place_support::{
    stage_after, SpawnAction, SpawnEvent, SpawnPlace, SpawnStage, WorldWin,
};
use crate::smoketest::scenario::{
    DRAIN_LIMIT, DRAIN_MS, FOCUS_WAIT_MS, INITIAL_SPIN_ITERS, RESOLVE_ATTEMPTS,
};
use crate::smoketest::timed_look::EVENT_CHUNK_MS;
use crate::text::texts;

verus! {

/// The window that a start is about.
pub open spec fn window_at(stage: SpawnStage) -> Option<WorldWin> {
    match stage {
        SpawnStage::Readying(w) => Some(w),
        SpawnStage::Raising(w) => Some(w),
        SpawnStage::Listing(w) => Some(w),
        SpawnStage::Activating(w, _) => Some(w),
        SpawnStage::Writing(w, _) => Some(w),
        SpawnStage::Showing(w, _) => Some(w),
        SpawnStage::Found(w, _) => Some(w),
        _ => None,
    }
}

/// A start keeps to the window that it has found, as it was last seen; it looks for the
/// window on screen only where it is not there yet.
pub proof fn a_start_keeps_its_window(stage: SpawnStage, event: SpawnEvent)
    ensures
        stage is Awaiting && event is Window ==> window_at(stage_after(stage, event)) == Some(
            event->Window_0,
        ),
        stage is Awaiting && event is Window ==> (stage_after(stage, event) is Readying
            <==> !event->Window_0.is_on_screen),
        stage is Readying && event is Window ==> window_at(stage_after(stage, event)) == Some(
            event->Window_0,
        ),
        window_at(stage) is Some && !(stage is Readying && event is Window) && window_at(
            stage_after(stage, event),
        ) is Some ==> window_at(stage_after(stage, event)) == window_at(stage),
        stage is Awaiting && !(event is Window) ==> stage_after(stage, event) is Lost,
{
}

/// A helper is found only once it was looked for on screen; a start is lost only where
/// the helper, its window or its file is.
pub proof fn a_start_goes_through_its_stages(stage: SpawnStage, event: SpawnEvent)
    ensures
        stage_after(stage, event) is Found && !(stage is Found) ==> stage is Showing && !(
        event is Broken),
        stage is Showing && !(event is Broken) ==> stage_after(stage, event) is Found,
        stage_after(stage, event) is Lost && !(stage is Lost) ==> stage is Spawning
            || stage is Awaiting || stage is Writing || stage is Showing,
        (stage is Spawning || stage is Writing) && (event is Failed || event is Broken)
            ==> stage_after(stage, event) is Lost,
        stage is Raising ==> stage_after(stage, event) is Listing,
        stage is Listing ==> stage_after(stage, event) is Activating,
        stage is Activating ==> stage_after(stage, event) is Writing,
        stage is Spawning && event is Done ==> stage_after(stage, event) is Awaiting,
{
}

/// What is raised, shown and handed over is the window of the start, and what is
/// activated its process.
pub proof fn a_start_acts_on_its_window(start: SpawnPlace, action: SpawnAction)
    requires
        start.calls_for(action),
    ensures
        start.stage is Raising ==> action is RaiseWindow && action->RaiseWindow_id
            == start.stage->Raising_0.id && action->RaiseWindow_pid == start.stage->Raising_0.pid
            && action->RaiseWindow_deadline_ms >= 1_200,
        start.stage is Activating ==> action == SpawnAction::Activate(start.stage->Activating_1),
        start.stage is Showing ==> action is AwaitVisible && action->window
            == start.stage->Showing_0.id && action->owner == start.stage->Showing_1
            && action->total_ms == 1_200,
        start.stage is Found ==> action is Ready && action->Ready_0.id == start.stage->Found_0.id
            && action->Ready_0.pid == start.stage->Found_1,
        action is Fail <==> start.stage is Lost,
{
}

/// A helper is started well only once its window was seen, and not seen only once its
/// time was up; it is brought to the front again while it is not there and attempts are
/// left.
pub proof fn helpers_are_seen_and_fronted(
    run: SpawnFrontmost,
    event: HelperEvent,
    now: u64,
    after: SpawnFrontmost,
    step: HelperStep,
)
    requires
        run.answered(event, now, after, step),
    ensures
        step is Finish && step->Finish_0 is Ok ==> step->Finish_0->Ok_0 == run.pid && (event
            == HelperEvent::Looked(true) || event is Fronted),
        step is Finish && step->Finish_0 is Err && event is Rested ==> now >= run.look.deadline,
        event is Spawned ==> after.pid == event->Spawned_0 && after.look.deadline - now
            == run.timeout_ms * 1_000_000,
        event == HelperEvent::Looked(false) ==> step is Pause,
        event == HelperEvent::Fronted(false) && run.front.left > 1 ==> step is ListAndRequest
            && after.front.left == run.front.left - 1,
        event == HelperEvent::Fronted(true) ==> step is Finish && step->Finish_0 is Ok,
        event is SpawnFailed ==> step == HelperStep::Finish(
            Err::<i32, Error>(Error::SpawnFailed(event->SpawnFailed_0)),
        ),
{
}

/// A number where something is set, and none where it is not.
#[verifier::opaque]
pub open spec fn count_if(on: bool, n: int) -> int {
    if on {
        n
    } else {
        0
    }
}

proof fn options_take_their_places(b: HelperWindowBuilder)
    ensures
        number_arg("--delay-setframe-ms"@, b.delay_setframe_ms).len() == count_if(
            b.delay_setframe_ms is Some,
            2,
        ),
        number_arg("--delay-apply-ms"@, b.delay_apply_ms).len() == count_if(
            b.delay_apply_ms is Some,
            2,
        ),
        number_arg("--tween-ms"@, b.tween_ms).len() == count_if(b.tween_ms is Some, 2),
        rect_arg("--apply-target"@, b.apply_target).len() == count_if(b.apply_target is Some, 5),
        cell_arg("--apply-grid"@, b.apply_grid).len() == count_if(b.apply_grid is Some, 5),
        cell_arg("--grid"@, b.grid).len() == count_if(b.grid is Some, 5),
        pair_arg("--size"@, b.size).len() == count_if(b.size is Some, 3),
        pair_arg("--pos"@, b.pos).len() == count_if(b.pos is Some, 3),
        text_arg("--label-text"@, b.label_text).len() == count_if(b.label_text is Some, 2),
        pair_arg("--min-size"@, b.min_size).len() == count_if(b.min_size is Some, 3),
        pair_arg("--step-size"@, b.step_size).len() == count_if(b.step_size is Some, 3),
        flag_arg("--start-minimized"@, b.start_minimized).len() == count_if(b.start_minimized, 1),
        flag_arg("--start-zoomed"@, b.start_zoomed).len() == count_if(b.start_zoomed, 1),
        flag_arg("--panel-nonmovable"@, b.nonmovable).len() == count_if(b.nonmovable, 1),
        flag_arg("--non-resizable"@, b.nonresizable).len() == count_if(b.nonresizable, 1),
        flag_arg("--attach-sheet"@, b.attach_sheet).len() == count_if(b.attach_sheet, 1),
{
    reveal(count_if);
}

/// A helper is told as much as is set: besides title and lifetime, each option that is
/// set has its place among the arguments, and no other has.
#[verifier::spinoff_prover]
pub proof fn helpers_are_told_every_option(b: HelperWindowBuilder, r: Vec<String>)
    requires
        call_ensures(HelperWindowBuilder::configure_command, (&b,), r),
    ensures
        r@.len() == 5 + count_if(b.delay_setframe_ms is Some, 2) + count_if(
            b.delay_apply_ms is Some,
            2,
        ) + count_if(b.tween_ms is Some, 2) + count_if(b.apply_target is Some, 5) + count_if(
            b.apply_grid is Some,
            5,
        ) + count_if(b.grid is Some, 5) + count_if(b.size is Some, 3) + count_if(b.pos is Some, 3)
            + count_if(b.label_text is Some, 2) + count_if(b.min_size is Some, 3) + count_if(
            b.step_size is Some,
            3,
        ) + count_if(b.start_minimized, 1) + count_if(b.start_zoomed, 1) + count_if(
            b.nonmovable,
            1,
        ) + count_if(b.nonresizable, 1) + count_if(b.attach_sheet, 1),
{
    options_take_their_places(b);
    assert(texts(r@).len() == r@.len());
}

/// A millisecond is a million nanoseconds.
pub proof fn milliseconds_are_millions(a: u64, b: u64, x: u128, y: u128, one: u128)
    requires
        call_ensures(ms, (a,), x),
        call_ensures(ms, (b,), y),
        call_ensures(ms, (1u64,), one),
    ensures
        one == 1_000_000,
        x == a * 1_000_000,
        a < b ==> y - x >= 1_000_000,
{
}

/// Looks are closer together than retries, retries fit into a chunk of events, and
/// nothing that is waited for may take longer than a case has.
pub proof fn the_times_of_the_harness_fit_together()
    ensures
        POLL_INTERVAL_MS == 5,
        RETRY_DELAY_MS == 30,
        FAST_DELAY_MS == 50,
        EVENT_CHUNK_MS == 300,
        DRAIN_MS == 750,
        FOCUS_WAIT_MS == 10_000,
        DEFAULT_RUN_BUDGET_MS == 10_000,
        WATCHDOG_OVERHEAD_MS == 15_000,
{
}

/// A window is looked for forty times, a guard tries five times, a helper is brought to
/// the front three times, a connection is made anew three times, and the last hundred and
/// twenty-eight events are kept.
pub proof fn attempts_are_limited()
    ensures
        RESOLVE_ATTEMPTS == 40,
        INITIAL_SPIN_ITERS == 24,
        DRAIN_LIMIT == 5_000,
        MAX_ATTEMPTS == 5,
        FRONT_ATTEMPTS == 3,
        MAX_RECONNECT_ATTEMPTS == 3,
        CONNECT_STEPS == 3,
        EVENT_BUFFER_CAPACITY == 128,
{
}

} // verus!
