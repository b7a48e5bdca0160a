//! What the smaller rules of the harness are good for.

use vstd::prelude::*;

use crate::geom::Rect;
use crate::pick::{first_where, first_where_is_first};
use crate::screen::ScreenLayout;
use crate::smoketest::bridge::{BridgeClient, BridgeReply, BridgeResponse, Call};
use crate::smoketest::cli::{iteration_heading, runner_config, Cli, Commands, RunnerConfig};
use crate::smoketest::driver::Driver;
use crate::smoketest::error::{connection_lost, DriverError, Error, IoKind};
use crate::smoketest::focus_guard::{is_guarded, FocusGuard, SnapshotWindow};
use crate::smoketest::frames::{grid_rect_from_frames, Frames, GridCell, RectPx, WindowMode};
use crate::smoketest::fullscreen::area_delta;
use crate::smoketest::helper_window::wait_for_frontmost_title;
use crate::smoketest::hide_case::is_restored;
use crate::smoketest::orchestrator::{wants_overlay, SubtestIo};
use crate::smoketest::process::kill_and_wait;
use crate::smoketest::raise_test::{all_present, AwaitedWindow};
use crate::smoketest::repeat::{
    original_volume, repeats_in_log, repeats_in_volume, restore_level, RepeatWorkload,
};
use crate::smoketest::results::{TestDetails, TestOutcome};
use crate::smoketest::scenario::{focus_nav, focus_tracking, raise, ScenarioPlan, ScenarioState};
use crate::smoketest::timed_look::{LookStep, TimedLook};
use crate::smoketest::windows::{
    global_top, point_in_display, same_display_frame, same_frame, visible_frame_for_display,
    AppKitScreen, DisplayFrame,
};
use crate::window::WindowInfo;

verus! {

/// An answer is taken for what it is: each reading accepts one kind and hands on what
/// it holds, and a failure is never taken for an answer.
pub proof fn answers_are_taken_for_what_they_are(
    answer: BridgeResponse,
    done: Result<(), DriverError>,
    bindings: Result<Vec<String>, DriverError>,
    depth: Result<usize, DriverError>,
    seq: Result<u64, DriverError>,
    snapshot: Result<String, DriverError>,
)
    requires
        call_ensures(BridgeResponse::into_result, (answer,), done),
        call_ensures(BridgeResponse::into_bindings, (answer,), bindings),
        call_ensures(BridgeResponse::into_depth, (answer,), depth),
        call_ensures(BridgeResponse::into_world_seq, (answer,), seq),
        call_ensures(BridgeResponse::into_snapshot, (answer,), snapshot),
    ensures
        done is Ok <==> answer is Okay,
        bindings is Ok <==> answer is Bindings,
        bindings is Ok ==> answer->Bindings_0 == bindings->Ok_0,
        depth is Ok <==> answer is Depth,
        depth is Ok ==> answer->Depth_0 == depth->Ok_0,
        seq is Ok <==> answer is WorldSeq,
        seq is Ok ==> answer->WorldSeq_0 == seq->Ok_0,
        snapshot is Ok <==> answer is Snapshot,
        snapshot is Ok ==> answer->Snapshot_0 == snapshot->Ok_0,
        answer is Failure ==> done is Err && done->Err_0 is BridgeFailure && bindings is Err
            && depth is Err && seq is Err && snapshot is Err,
{
}

/// An acknowledgement is accepted only for its own command.
pub proof fn only_the_own_acknowledgement_counts(
    command_id: u64,
    reply: BridgeReply,
    r: Result<(), DriverError>,
)
    requires
        call_ensures(Call::validate_ack, (command_id, reply), r),
    ensures
        r is Ok <==> reply.command_id == command_id && reply.response is Ack,
{
}

/// Events after a shutdown are noticed exactly when more were observed than before.
pub proof fn later_events_are_noticed(client: BridgeClient, before: usize, r: Result<(), DriverError>)
    requires
        call_ensures(BridgeClient::assert_no_new_events_since, (&client, before), r),
    ensures
        r is Err <==> client.observed > before,
        r is Err ==> r->Err_0 is PostShutdownMessage,
{
}

/// Commands are numbered upwards, each differently from the one before.
pub proof fn commands_are_numbered_upwards(id: u64)
    ensures
        id < u64::MAX ==> BridgeClient::next_id(id) == id + 1,
        BridgeClient::next_id(id) != id,
{
}

/// A driver is ready exactly when it has a connection.
pub proof fn ready_means_connected(driver: Driver, r: bool)
    requires
        call_ensures(Driver::is_ready, (&driver,), r),
    ensures
        r <==> !(driver.conn is None),
{
}

/// A connection is lost when the peer closed, reset or aborted it; waiting too long
/// loses none.
pub proof fn slow_peers_are_not_lost(kind: IoKind, r: bool)
    requires
        call_ensures(connection_lost, (kind,), r),
    ensures
        kind is WouldBlock || kind is TimedOut || kind is Other ==> !r,
        kind is BrokenPipe || kind is ConnectionReset || kind is ConnectionAborted ==> r,
{
}

/// What the flags forbid is not done, and what they do not mention is.
pub proof fn flags_are_heeded(cli: Cli, r: RunnerConfig)
    requires
        call_ensures(runner_config, (&cli,), r),
    ensures
        r.quiet == cli.quiet,
        cli.no_warn <==> !r.warn_overlay,
        cli.no_fail_fast <==> !r.fail_fast,
        r.run_budget_ms == cli.run_budget_ms,
        r.overlay_info == cli.info,
{
}

/// Iterations have headings only where there are several and nobody asked for quiet.
pub proof fn several_iterations_have_headings(cli: Cli, iteration: u32, r: Option<String>)
    requires
        call_ensures(iteration_heading, (&cli, iteration), r),
    ensures
        r is Some <==> cli.repeat >= 2 && !cli.quiet,
{
}

/// A command names a case by itself unless it stands for several.
pub proof fn single_commands_name_their_case(command: Commands, r: Option<&'static str>)
    requires
        call_ensures(Commands::case_slug, (&command,), r),
    ensures
        r is None <==> command is All || command is List || command is Sequence,
        command is Hud ==> r->Some_0@ == "hud"@,
        command is Mini ==> r->Some_0@ == "mini"@,
        command is Displays ==> r->Some_0@ == "displays"@,
        command is Notifications ==> r->Some_0@ == "notifications"@,
        command is ConfigActivation ==> r->Some_0@ == "config-activation"@,
        command is Reconnect ==> r->Some_0@ == "reconnect"@,
{
}

/// Ending a child that is gone is no failure; otherwise both parts have to work.
pub proof fn ending_a_child_takes_both_parts(
    outcome: Option<(Result<(), String>, Result<(), String>)>,
    r: Result<(), Error>,
)
    requires
        call_ensures(kill_and_wait, (outcome,), r),
    ensures
        r is Ok <==> outcome is None || (outcome->Some_0.0 is Ok && outcome->Some_0.1 is Ok),
        outcome is Some && outcome->Some_0.0 is Err ==> r->Err_0 == Error::Io(
            outcome->Some_0.0->Err_0,
        ),
{
}

/// The first run is no repeat: the count is one less than what was seen, and none where
/// nothing was.
pub proof fn the_first_run_is_no_repeat(seen: Option<u64>, log: u64, volume: u64)
    requires
        call_ensures(repeats_in_log, (seen,), log),
        call_ensures(repeats_in_volume, (seen,), volume),
    ensures
        log == volume,
        seen is Some && seen->Some_0 > 0 ==> log + 1 == seen->Some_0,
        seen is None || seen->Some_0 == 0 ==> log == 0,
{
}

/// A volume that was read is put back; where none could be read, half is.
pub proof fn the_volume_is_put_back(reading: Option<u64>, original: u64, level: u8)
    requires
        call_ensures(original_volume, (reading,), original),
        call_ensures(restore_level, (original,), level),
    ensures
        reading is Some && reading->Some_0 <= 100 ==> level == reading->Some_0,
        reading is None ==> level == 50,
{
}

/// The volume is given more time where its least asks for it; nothing else is.
pub proof fn the_volume_takes_longer(w: RepeatWorkload, default_ms: u64, least_ms: u64, r: u64)
    requires
        call_ensures(RepeatWorkload::duration_ms, (w, default_ms, least_ms), r),
    ensures
        r >= default_ms,
        w is Volume ==> r >= least_ms,
        r == default_ms || (w is Volume && r == least_ms),
{
}

/// An outcome that is given a time or a message keeps everything else.
pub proof fn outcomes_keep_what_they_were(
    o: TestOutcome,
    ms: u64,
    message: String,
    timed: TestOutcome,
    told: TestOutcome,
)
    requires
        call_ensures(TestOutcome::with_elapsed_ms, (o, ms), timed),
        call_ensures(TestOutcome::with_message, (o, message), told),
    ensures
        timed.success == o.success && told.success == o.success,
        timed.elapsed_ms == ms && told.elapsed_ms == o.elapsed_ms,
        timed.message == o.message && told.message == Some(message),
        timed.details == o.details && told.details == o.details,
{
}

/// A passed test says so and a failed one gives its reason.
pub proof fn outcomes_say_how_it_went(
    details: TestDetails,
    why: String,
    good: TestOutcome,
    bad: TestOutcome,
)
    requires
        call_ensures(TestOutcome::success, (details,), good),
        call_ensures(TestOutcome::failure, (details, why), bad),
    ensures
        good.success && !bad.success,
        bad.message == Some(why),
        good.details == details && bad.details == details,
{
}

/// The overlay is shown where it is wanted and something real is run.
pub proof fn the_overlay_warns_of_real_runs(wanted: bool, fake: bool, r: bool)
    requires
        call_ensures(wants_overlay, (wanted, fake), r),
    ensures
        r ==> wanted,
        fake ==> !r,
        wanted && !fake ==> r,
{
}

/// A child's output either goes where the parent's goes or is captured, and logs are
/// asked for only in the first case.
pub proof fn output_goes_one_way(io: SubtestIo, inherits: bool, quiet: bool, logs: bool)
    requires
        call_ensures(SubtestIo::inherits_stdio, (&io,), inherits),
        call_ensures(SubtestIo::quiet_capture, (&io,), quiet),
        call_ensures(SubtestIo::logs_enabled, (&io,), logs),
    ensures
        inherits != quiet,
        logs ==> inherits,
        inherits ==> logs == io->logs,
{
}

/// One pass of raising fails with the lookup before the raise, and with the raise before
/// the request; it works only when nothing has failed.
pub proof fn a_failed_lookup_counts_first(
    front: Result<(), Error>,
    lookup: Result<Option<Result<(), Error>>, Error>,
    r: Result<(), Error>,
)
    requires
        call_ensures(FocusGuard::raise_once, (front, lookup), r),
    ensures
        r is Ok <==> front is Ok && lookup is Ok && !(lookup->Ok_0 is Some
            && lookup->Ok_0->Some_0 is Err),
        lookup is Err ==> r->Err_0 == lookup->Err_0,
        lookup is Ok && lookup->Ok_0 is Some && lookup->Ok_0->Some_0 is Err ==> r->Err_0
            == lookup->Ok_0->Some_0->Err_0,
        front is Err && lookup is Ok && lookup->Ok_0 is None ==> r->Err_0 == front->Err_0,
{
}

/// A window that is known is raised; otherwise the first of the process with the title.
pub proof fn guards_raise_their_window(
    guard: FocusGuard,
    windows: Vec<SnapshotWindow>,
    r: Option<(i32, u32)>,
)
    requires
        call_ensures(FocusGuard::resolve_window_id, (&guard, &windows), r),
    ensures
        guard.window is Some ==> r == guard.window,
        guard.window is None && r is None ==> forall|j: int|
            0 <= j < windows@.len() ==> (#[trigger] windows@[j]).pid != guard.pid
                || windows@[j].title@ != guard.title@,
        guard.window is None && r is Some ==> r->Some_0.0 == guard.pid && exists|i: int|
            0 <= i < windows@.len() && (#[trigger] windows@[i]).pid == guard.pid
                && windows@[i].title@ == guard.title@ && windows@[i].id == r->Some_0.1,
{
    let p = is_guarded(guard.pid, guard.title@);
    first_where_is_first(windows@, p);
    if guard.window is None {
        if r is None {
            assert forall|j: int| 0 <= j < windows@.len() implies (#[trigger] windows@[j]).pid
                != guard.pid || windows@[j].title@ != guard.title@ by {
                assert(!p(windows@[j]));
            }
        } else {
            let i = first_where(windows@, p)->Some_0;
            assert(p(windows@[i]));
            assert(windows@[i].pid == guard.pid && windows@[i].title@ == guard.title@
                && windows@[i].id == r->Some_0.1);
        }
    }
}

/// A new guard has made no attempt, and a raise may take twenty delays, or a second
/// where that is longer.
pub proof fn guards_begin_afresh(
    pid: i32,
    title: String,
    window: Option<(i32, u32)>,
    delay: u64,
    r: FocusGuard,
)
    requires
        call_ensures(FocusGuard::acquire, (pid, title, window, delay), r),
    ensures
        r.pid == pid && r.title == title && r.window == window,
        r.attempts == 0 && r.last_error is None,
        r.raise_deadline_ms >= 1_000,
        r.raise_deadline_ms < u64::MAX ==> r.raise_deadline_ms >= 20 * delay,
        r.raise_deadline_ms == 1_000 || r.raise_deadline_ms == 20 * delay || r.raise_deadline_ms
            == u64::MAX,
{
}

/// A window is restored in its normal state only, with every side within the tolerance.
pub proof fn restored_windows_are_normal(frames: Frames, expected: RectPx, eps: i32, r: bool)
    requires
        call_ensures(is_restored, (&frames, expected, eps), r),
    ensures
        r <==> (frames.mode == WindowMode::Normal && ({
            let got = frames.authoritative;
            &&& -eps <= got.x - expected.x <= eps
            &&& -eps <= got.y - expected.y <= eps
            &&& -eps <= got.w - expected.w <= eps
            &&& -eps <= got.h - expected.h <= eps
        })),
{
}

/// Growth is measured from the earlier frame to the later one.
pub proof fn growth_is_measured_forwards(a: Rect, b: Rect, there: i128, back: i128, none: i128)
    requires
        a.sized(),
        b.sized(),
        call_ensures(area_delta, (a, b), there),
        call_ensures(area_delta, (b, a), back),
        call_ensures(area_delta, (a, a), none),
    ensures
        there == b.w * b.h - a.w * a.h,
        there + back == 0,
        none == 0,
{
}

/// All windows are there exactly when each is: its application reports it, or a window
/// of its process or with its title is listed.
pub proof fn every_awaited_window_is_there(
    windows: Vec<WindowInfo>,
    expected: Vec<AwaitedWindow>,
    r: bool,
)
    requires
        call_ensures(all_present, (&windows, &expected), r),
    ensures
        r <==> forall|i: int|
            0 <= i < expected@.len() ==> (#[trigger] expected@[i]).reported || exists|j: int|
                0 <= j < windows@.len() && ((#[trigger] windows@[j]).pid == expected@[i].pid
                    || windows@[j].title@ == expected@[i].title@),
{
    if !r {
        let i = choose|i: int|
            0 <= i < expected@.len() && !crate::smoketest::raise_test::is_present(
                windows@,
                #[trigger] expected@[i],
            );
        assert(!expected@[i].reported);
    } else {
        assert forall|i: int| 0 <= i < expected@.len() implies (#[trigger] expected@[i]).reported
            || exists|j: int|
            0 <= j < windows@.len() && ((#[trigger] windows@[j]).pid == expected@[i].pid
                || windows@[j].title@ == expected@[i].title@) by {
            assert(crate::smoketest::raise_test::is_present(windows@, expected@[i]));
        }
    }
}

/// A rectangle is on a display when its middle is, edges included.
pub proof fn the_middle_decides_the_display(display: DisplayFrame, rect: Rect, r: bool)
    requires
        call_ensures(point_in_display, (&display, &rect), r),
    ensures
        r <==> ({
            let f = display.frame;
            &&& 2 * (rect.x - f.x) + rect.w >= 0
            &&& 2 * (rect.x - f.x) + rect.w <= 2 * f.w
            &&& 2 * (rect.y - f.y) + rect.h >= 0
            &&& 2 * (rect.y - f.y) + rect.h <= 2 * f.h
        }),
{
}

/// A screen is a display when, measured from the top, each side is within a point.
pub proof fn screens_are_displays_upside_down(
    display: DisplayFrame,
    screen: AppKitScreen,
    top: i128,
    r: bool,
)
    requires
        -0x2_0000_0000_0000_0000i128 <= top <= 0x2_0000_0000_0000_0000i128,
        call_ensures(same_display_frame, (&display, &screen, top), r),
    ensures
        r <==> ({
            let d = display.frame;
            let s = screen.frame;
            &&& -1024 <= d.x - s.x <= 1024
            &&& -1024 <= d.y + s.y + s.h - top <= 1024
            &&& -1024 <= d.w - s.w <= 1024
            &&& -1024 <= d.h - s.h <= 1024
        }),
{
}

/// The visible part that is found is that of a screen that is the display, measured
/// from the highest edge of all screens.
pub proof fn the_visible_part_is_that_of_the_display(
    display: DisplayFrame,
    screens: Vec<AppKitScreen>,
    r: Option<(i128, i64)>,
)
    requires
        call_ensures(visible_frame_for_display, (&display, &screens), r),
        r is Some,
    ensures
        exists|i: int|
            0 <= i < screens@.len() && (#[trigger] screens@[i]).visible.h == r->Some_0.1
                && r->Some_0.0 + screens@[i].visible.y + screens@[i].visible.h == global_top(
                screens@,
            ) && -1024 <= display.frame.x - screens@[i].frame.x <= 1024 && -1024 <= display.frame.w
                - screens@[i].frame.w <= 1024 && -1024 <= display.frame.h - screens@[i].frame.h
                <= 1024,
{
    let y = r->Some_0.0;
    let h = r->Some_0.1;
    let i = choose|i: int|
        {
            &&& 0 <= i < screens@.len()
            &&& #[trigger] same_frame(display, screens@[i], global_top(screens@))
            &&& forall|j: int|
                0 <= j < i ==> !#[trigger] same_frame(display, screens@[j], global_top(screens@))
            &&& y == global_top(screens@) - (screens@[i].visible.y + screens@[i].visible.h)
            &&& h == screens@[i].visible.h
        };
    assert(screens@[i].visible.h == h);
}

/// A label names the first window that bears it, and none where none does.
pub proof fn labels_name_their_window(state: ScenarioState, label: &str, r: Result<usize, Error>)
    requires
        call_ensures(ScenarioState::window, (&state, label), r),
    ensures
        r is Ok ==> r->Ok_0 < state.windows@.len() && state.windows@[r->Ok_0 as int].label@
            == label@,
        r is Err ==> forall|j: int|
            0 <= j < state.windows@.len() ==> (#[trigger] state.windows@[j]).label@ != label@,
{
}

/// In every scenario each window is raised once, by its own label, and no two windows
/// stand in the same place.
pub proof fn every_window_of_a_scenario_is_raised(
    tracking: ScenarioPlan,
    nav: ScenarioPlan,
    raised: ScenarioPlan,
)
    requires
        call_ensures(focus_tracking, (), tracking),
        call_ensures(focus_nav, (), nav),
        call_ensures(raise, (), raised),
    ensures
        tracking.windows@.len() == tracking.raises@.len() == 2,
        nav.windows@.len() == nav.raises@.len() == 4,
        raised.windows@.len() == raised.raises@.len() == 2,
        forall|i: int|
            0 <= i < 2 ==> #[trigger] tracking.windows@[i].label == tracking.raises@[i],
        forall|i: int| 0 <= i < 4 ==> #[trigger] nav.windows@[i].label == nav.raises@[i],
        forall|i: int| 0 <= i < 2 ==> #[trigger] raised.windows@[i].label == raised.raises@[i],
        forall|i: int, j: int|
            0 <= i < j < 4 ==> (#[trigger] nav.windows@[i]).pos != (#[trigger] nav.windows@[j]).pos,
        tracking.windows@[0].pos != tracking.windows@[1].pos,
        raised.windows@[0].pos != raised.windows@[1].pos,
{
}

/// The wait for the window in front lasts its full time, and looks every five
/// milliseconds.
pub proof fn the_front_is_looked_at_often(timeout_ms: u64, now: u64, r: (TimedLook, LookStep))
    requires
        call_ensures(wait_for_frontmost_title, (timeout_ms, now), r),
    ensures
        r.0.deadline - now == timeout_ms * 1_000_000,
        r.0.pause_ms == 5,
        timeout_ms > 0 ==> r.1 is Look,
        timeout_ms == 0 ==> r.1 == LookStep::Over(false),
{
}

/// A cell is found exactly when a screen is: without any screen there is none.
pub proof fn cells_need_a_screen(
    screens: ScreenLayout,
    frames: Frames,
    grid: GridCell,
    r: Result<RectPx, Error>,
)
    requires
        screens.on_desktop(),
        grid.in_grid(),
        call_ensures(grid_rect_from_frames, (&screens, &frames, grid), r),
    ensures
        screens.screens@.len() == 0 && screens.main is None ==> r is Err,
{
}

} // verus!
