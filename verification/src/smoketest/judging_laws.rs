//! What the judgements of the cases are good for.

use vstd::prelude::*;

use crate::permissions::PermissionState;
use crate::pick::first_where_is_first;
use crate::place::common::{PlaceAttemptOptions, PlacementDecisionHooks};
use crate::place::adapter::FakeOp;
use crate::place::engine::PlacementOutcome;
use crate::place::metrics::PlacementCountersSnapshot;
use crate::smoketest::case_plan::{
    attempt_options, deadline_for, AnchorRule, CounterRule, RaiseStrategy, RequestOptions, Step,
};
use crate::smoketest::case_run::{
    ensure_frame_stability, is_anchored, judge_counters, MoveCaseBudget,
};
use crate::smoketest::error::Error;
use crate::smoketest::fake_flow::{ensure_fake_op, judge_flow, FakeKind};
use crate::smoketest::frames::{Frames, RectPx};
use crate::smoketest::helper_window::{
    front_request, is_frontmost_title, is_visible, is_window, judge_visible, FrontRequest,
    HelperWindowBuilder,
};
use crate::smoketest::place_support::{
    listed_pid, promote_helper_frontmost, resolve_pid, ListedWin, PromoteOp,
    GRID_RETRIES, MOVE_PAUSE_MS, MOVE_RETRIES, WARMUP_MS,
};
use crate::smoketest::scenario::{
    check_raise, drain_again, drop_another, ensure_window_ready, resolve_marked, WorldWindow,
};
use crate::smoketest::ui_case::{MessageRule, NoticeStep, NoticeWait, UiMessage};
use crate::smoketest::world_case::{
    judge_props, shows_first_space, shows_second_space, spaces_answer, world_status_permissions,
    AxProps, FocusedWindow, PropsStep, PropsWait, SpaceWindow, SpacesAction, SpacesEvent, SpacesRun,
    WorldStatus,
};
use crate::text::occurs;
use crate::window::WindowInfo;

verus! {

/// A window is anchored when its corner is within the tolerance of the cell's and it is
/// no smaller than the cell; a window of fixed width is also no wider.
pub proof fn anchored_windows_keep_the_corner(
    rule: AnchorRule,
    actual: RectPx,
    expected: RectPx,
    eps: i32,
    r: bool,
)
    requires
        call_ensures(is_anchored, (rule, actual, expected, eps), r),
    ensures
        r ==> actual.x - expected.x <= eps && expected.x - actual.x <= eps && actual.y - expected.y
            <= eps && expected.y - actual.y <= eps,
        r ==> expected.h - actual.h <= eps && expected.w - actual.w <= eps,
        r && rule is FixedWidth ==> actual.w - expected.w <= eps,
        eps >= 0 && actual.x == expected.x && actual.y == expected.y && actual.w == expected.w
            && actual.h >= expected.h ==> r,
        eps >= 0 && rule is AtLeast && actual.x == expected.x && actual.y == expected.y && actual.w
            >= expected.w && actual.h >= expected.h ==> r,
        -eps <= actual.x - expected.x <= eps && -eps <= actual.y - expected.y <= eps && -eps
            <= actual.w - expected.w <= eps && -eps <= actual.h - expected.h ==> r,
{
}

/// Counters are accepted exactly when they show the stages that the case is about: the
/// first attempt alone, the opposite order without the fallback, or the fallback.
pub proof fn counters_show_the_stages(
    rule: CounterRule,
    counters: PlacementCountersSnapshot,
    r: Option<String>,
)
    requires
        call_ensures(judge_counters, (rule, &counters), r),
    ensures
        rule is FirstOrderOnly ==> (r is None <==> counters.retry_opposite.attempts == 0
            && counters.fallback_smg.attempts == 0),
        rule is OppositeOrder ==> (r is None <==> counters.retry_opposite.attempts >= 1
            && counters.fallback_smg.attempts == 0),
        rule is Fallback ==> (r is None <==> counters.fallback_smg.attempts >= 1),
{
}

/// A frame is stable exactly when there is one and every side is within the tolerance.
pub proof fn stable_frames_are_in_place(
    case: &str,
    expected: RectPx,
    frames: Option<Frames>,
    eps: i32,
    watch_ms: u64,
    r: Result<(), Error>,
)
    requires
        call_ensures(ensure_frame_stability, (case, expected, frames, eps, watch_ms), r),
    ensures
        r is Ok <==> (frames is Some && ({
            let got = frames->Some_0.authoritative;
            &&& -eps <= got.x - expected.x <= eps
            &&& -eps <= got.y - expected.y <= eps
            &&& -eps <= got.w - expected.w <= eps
            &&& -eps <= got.h - expected.h <= eps
        })),
{
}

/// The time of a step is noted where it belongs, and nowhere else.
pub proof fn times_are_noted_where_they_belong(b: MoveCaseBudget, step: Step, took: u64)
    ensures
        step is PumpFor ==> b.noted(step, took).warmup_ms == took,
        !(step is PumpFor) ==> b.noted(step, took).warmup_ms == b.warmup_ms,
        step is Spawn ==> b.noted(step, took).spawn_ms == took,
        !(step is Spawn) ==> b.noted(step, took).spawn_ms == b.spawn_ms,
        step is AwaitFrames ==> b.noted(step, took).initial_frames_ms == took,
        !(step is AwaitFrames) ==> b.noted(step, took).initial_frames_ms == b.initial_frames_ms,
        step is Promote && step->Promote_timed ==> b.noted(step, took).action_raise_ms == took,
        !(step is Promote && step->Promote_timed) ==> b.noted(step, took).action_raise_ms
            == b.action_raise_ms,
        step is RequestMove ==> b.noted(step, took).move_request_ms == took,
        !(step is RequestMove) ==> b.noted(step, took).move_request_ms == b.move_request_ms,
        step is AwaitAnchored ==> b.noted(step, took).settle_wait_ms == took,
        !(step is AwaitAnchored) ==> b.noted(step, took).settle_wait_ms == b.settle_wait_ms,
{
}

/// A deadline is never below its least value nor below the multiple of the delay, as
/// far as a number can say so, and it is one of the two.
pub proof fn deadlines_have_a_least_value(delay_ms: u64, factor: u64, least_ms: u64, r: u64)
    requires
        call_ensures(deadline_for, (delay_ms, factor, least_ms), r),
    ensures
        r >= least_ms,
        r < u64::MAX ==> r >= delay_ms * factor,
        r == least_ms || r == delay_ms * factor || (r == u64::MAX && delay_ms * factor > u64::MAX),
{
}

/// A forced retry and a forced fallback both ask for the second attempt; only the
/// fallback is forced through the hook, and the defaults stay as they are.
pub proof fn forcing_changes_what_is_forced(
    base: PlaceAttemptOptions<PlacementDecisionHooks>,
    standard: PlaceAttemptOptions<PlacementDecisionHooks>,
    second: PlaceAttemptOptions<PlacementDecisionHooks>,
    fallback: PlaceAttemptOptions<PlacementDecisionHooks>,
)
    requires
        call_ensures(attempt_options, (RequestOptions::Standard, base), standard),
        call_ensures(attempt_options, (RequestOptions::ForceSecond, base), second),
        call_ensures(attempt_options, (RequestOptions::ForceFallback, base), fallback),
    ensures
        standard@ == base@,
        second@.force_second_attempt && fallback@.force_second_attempt,
        second@.retry_limits.max_axis_nudges == 0 && second@.retry_limits.max_opposite_order == 0
            && second@.retry_limits.max_anchor_attempts == 0
            && second@.retry_limits.max_fallback_runs == 1,
        fallback@.retry_limits == base@.retry_limits,
        second@.hooks == base@.hooks,
        fallback@.hooks.fallback.forced && fallback@.hooks.fallback.last,
        second@.tuning == base@.tuning && fallback@.tuning == base@.tuning,
{
}

/// The window that is taken bears the mark; no marked window in the ordinary layer is
/// passed over for one outside it, none on screen for one off screen, and none in front
/// for one behind; of equals the first is taken. None is taken only where none is
/// marked.
pub proof fn the_foremost_marked_window_is_taken(
    snapshot: Vec<WorldWindow>,
    mark: &str,
    r: Option<usize>,
)
    requires
        call_ensures(resolve_marked, (&snapshot, mark), r),
    ensures
        r is Some ==> r->Some_0 < snapshot@.len() && occurs(
            snapshot@[r->Some_0 as int].title@,
            mark@,
        ),
        r is None ==> forall|j: int|
            0 <= j < snapshot@.len() ==> !occurs((#[trigger] snapshot@[j]).title@, mark@),
        r is Some ==> forall|j: int|
            0 <= j < snapshot@.len() && occurs((#[trigger] snapshot@[j]).title@, mark@) ==> ({
                let got = snapshot@[r->Some_0 as int];
                let other = snapshot@[j];
                &&& other.layer == 0 ==> got.layer == 0
                &&& (other.layer == 0 <==> got.layer == 0) && other.is_on_screen
                    ==> got.is_on_screen
                &&& (other.layer == 0 <==> got.layer == 0) && other.is_on_screen
                    == got.is_on_screen ==> got.z <= other.z
                &&& (other.layer == 0 <==> got.layer == 0) && other.is_on_screen
                    == got.is_on_screen && got.z == other.z ==> r->Some_0 <= j
            }),
{
    if r is Some {
        let i = r->Some_0 as int;
        assert forall|j: int|
            0 <= j < snapshot@.len() && occurs((#[trigger] snapshot@[j]).title@, mark@) implies ({
            let got = snapshot@[i];
            let other = snapshot@[j];
            &&& other.layer == 0 ==> got.layer == 0
            &&& (other.layer == 0 <==> got.layer == 0) && other.is_on_screen ==> got.is_on_screen
            &&& (other.layer == 0 <==> got.layer == 0) && other.is_on_screen == got.is_on_screen
                ==> got.z <= other.z
            &&& (other.layer == 0 <==> got.layer == 0) && other.is_on_screen == got.is_on_screen
                && got.z == other.z ==> i <= j
        }) by {
            assert(!snapshot@[j].better_than(&snapshot@[i]));
            if j < i {
                assert(snapshot@[i].better_than(&snapshot@[j]));
            }
        }
    }
}

/// A window on screen is used as it is; one off screen is used as the wait has found
/// it, where it has.
pub proof fn windows_are_used_as_last_seen(
    window: WorldWindow,
    waited: Option<WorldWindow>,
    r: WorldWindow,
)
    requires
        call_ensures(ensure_window_ready, (window, waited), r),
    ensures
        r == window || (waited is Some && r == waited->Some_0),
        window.is_on_screen ==> r == window,
        !window.is_on_screen && waited is Some ==> r == waited->Some_0,
{
}

/// Events are dropped while fewer than five thousand were, in rounds, as long as a
/// round drops some and time is left.
pub proof fn draining_ends(dropped: u32, in_round: u32, overdue: bool, more: bool, again: bool)
    requires
        call_ensures(drop_another, (dropped,), more),
        call_ensures(drain_again, (dropped, in_round, overdue), again),
    ensures
        more <==> dropped < 5_000,
        again ==> more && in_round >= 1 && !overdue,
        more && in_round >= 1 && !overdue ==> again,
{
}

/// A raise is accepted exactly when it hit the window that was asked for.
pub proof fn raises_hit_the_window(
    label: &str,
    title: &str,
    expected: (i32, u32),
    answer: Result<Option<(i32, u32)>, String>,
    r: Result<(), Error>,
)
    requires
        call_ensures(check_raise, (label, title, expected, answer), r),
    ensures
        r is Ok <==> answer == Ok::<Option<(i32, u32)>, String>(Some(expected)),
{
}

/// A message is the awaited one only where it is of the awaited kind and says what is
/// awaited.
pub proof fn messages_say_what_is_awaited(rule: MessageRule, msg: UiMessage, r: bool)
    requires
        call_ensures(MessageRule::is_met_by, (&rule, &msg), r),
    ensures
        rule is NotifyTitled ==> (r <==> msg is Notify && msg->title@ == rule->NotifyTitled_0@),
        rule is DetailsOn ==> (r <==> msg == UiMessage::ShowDetails(true)),
        rule is SelectorTitled ==> (r <==> msg is SelectorUpdate && msg->heading@
            == rule->SelectorTitled_0@),
        rule is SelectorQuery ==> (r <==> msg is SelectorUpdate && msg->query@
            == rule->SelectorQuery_0@),
        rule is SelectorHidden ==> (r <==> msg is SelectorHide),
        rule is NotifySaying ==> (r <==> msg is Notify && msg->title@ == rule->NotifySaying_0@
            && msg->text@ == rule->NotifySaying_1@),
{
}

/// Messages before the remembered place do not count: once one from there on is the
/// awaited one, more messages do not undo it, and a place past the end awaits new ones.
pub proof fn only_later_messages_count(
    rule: MessageRule,
    messages: Vec<UiMessage>,
    cursor: usize,
    r: bool,
)
    requires
        call_ensures(MessageRule::is_met_since, (&rule, &messages, cursor), r),
    ensures
        cursor >= messages@.len() ==> !r,
        forall|i: int|
            cursor <= i < messages@.len() && rule.accepts(#[trigger] messages@[i]) ==> r,
        (forall|i: int| cursor <= i < messages@.len() ==> !rule.accepts(#[trigger] messages@[i]))
            ==> !r,
{
}

/// A notification that is there ends the wait; without one the wait lasts its full
/// time, in pauses of at most thirty milliseconds that do not outlast it.
pub proof fn notifications_have_their_time(
    wait: NoticeWait,
    found: bool,
    now: u64,
    later: u64,
    r: NoticeStep,
)
    requires
        now <= later,
        call_ensures(NoticeWait::look, (&wait, found, now, later), r),
    ensures
        r is Done <==> found,
        r is ListAll ==> wait.timeout_ms == 0 || now - wait.start >= wait.timeout_ms * 1_000_000,
        !found && wait.timeout_ms > 0 && now - wait.start >= wait.timeout_ms * 1_000_000
            ==> r is ListAll,
        r is Pause ==> r->Pause_0 <= 30_000_000,
        r is Pause && r->Pause_0 > 0 && later >= wait.start ==> later - wait.start + r->Pause_0
            <= wait.timeout_ms * 1_000_000,
        r is Pause && later >= wait.start && later - wait.start + 30_000_000 <= wait.timeout_ms
            * 1_000_000 ==> r->Pause_0 == 30_000_000,
{
}

proof fn the_first_listing_counts(windows: Seq<ListedWin>, id: u32, known: i32)
    ensures
        forall|i: int|
            0 <= i < windows.len() && (#[trigger] windows[i]).id == id && (forall|j: int|
                0 <= j < i ==> (#[trigger] windows[j]).id != id) ==> listed_pid(windows, id, known)
                == windows[i].pid,
        (forall|j: int| 0 <= j < windows.len() ==> (#[trigger] windows[j]).id != id) ==> listed_pid(
            windows,
            id,
            known,
        ) == known,
    decreases windows.len(),
{
    if windows.len() > 0 {
        let rest = windows.drop_first();
        the_first_listing_counts(rest, id, known);
        assert forall|i: int|
            0 <= i < windows.len() && (#[trigger] windows[i]).id == id && (forall|j: int|
                0 <= j < i ==> (#[trigger] windows[j]).id != id) implies listed_pid(
            windows,
            id,
            known,
        ) == windows[i].pid by {
            if i > 0 {
                assert(windows[0].id != id);
                assert(rest[i - 1] == windows[i]);
                assert forall|j: int| 0 <= j < i - 1 implies (#[trigger] rest[j]).id != id by {
                    assert(rest[j] == windows[j + 1]);
                }
            }
        }
        if forall|j: int| 0 <= j < windows.len() ==> (#[trigger] windows[j]).id != id {
            assert(windows[0].id != id);
            assert forall|j: int| 0 <= j < rest.len() implies (#[trigger] rest[j]).id != id by {
                assert(rest[j] == windows[j + 1]);
            }
        }
    }
}

/// The process of a window is that of its first listing, and the one already known
/// where it is not listed.
pub proof fn the_first_listing_names_the_process(
    windows: Vec<ListedWin>,
    id: u32,
    known: i32,
    r: i32,
)
    requires
        call_ensures(resolve_pid, (&windows, id, known), r),
    ensures
        forall|i: int|
            0 <= i < windows@.len() && (#[trigger] windows@[i]).id == id && (forall|j: int|
                0 <= j < i ==> (#[trigger] windows@[j]).id != id) ==> r == windows@[i].pid,
        (forall|j: int| 0 <= j < windows@.len() ==> (#[trigger] windows@[j]).id != id) ==> r
            == known,
{
    the_first_listing_counts(windows@, id, known);
}

/// A helper that keeps its place is not touched; one that is activated is brought to
/// the front and then raised, and one that is raised is raised once with its allowance.
pub proof fn promotion_follows_the_strategy(raise: RaiseStrategy, delay: u64, r: Vec<PromoteOp>)
    requires
        call_ensures(promote_helper_frontmost, (raise, delay), r),
    ensures
        raise is KeepFrontWindow <==> r@.len() == 0,
        raise is SmartRaise ==> r@.len() == 1 && r@[0] is SmartRaise && r@[0]->SmartRaise_deadline_ms
            == raise->SmartRaise_deadline_ms,
        raise is AppActivate ==> r@.len() == 2 && r@[0] == (PromoteOp::EnsureFrontmost {
            attempts: 6,
            delay_ms: delay,
        }) && r@[1] is SmartRaise && r@[1]->SmartRaise_deadline_ms >= 400 && (
        r@[1]->SmartRaise_deadline_ms < u64::MAX ==> r@[1]->SmartRaise_deadline_ms >= 10 * delay),
{
}

/// A placement is asked for again three times at most and a move four times, with
/// eighty milliseconds between; a first look takes at most twelve hundred.
pub proof fn requests_are_repeated_a_few_times()
    ensures
        GRID_RETRIES == 3,
        MOVE_RETRIES == 4,
        MOVE_PAUSE_MS == 80,
        WARMUP_MS == 1_200,
{
}

/// A window that is listed is raised: the first of its process with its title. Only
/// where none is listed is the process activated.
pub proof fn the_listed_window_is_raised(
    windows: Vec<WindowInfo>,
    pid: i32,
    title: &str,
    r: FrontRequest,
)
    requires
        call_ensures(front_request, (&windows, pid, title), r),
    ensures
        r is ActivateProcess ==> forall|j: int|
            0 <= j < windows@.len() ==> (#[trigger] windows@[j]).pid != pid || windows@[j].title@
                != title@,
        r is Raise ==> exists|i: int|
            0 <= i < windows@.len() && (#[trigger] windows@[i]).pid == pid && windows@[i].title@
                == title@ && windows@[i].id == r->Raise_0 && forall|j: int|
                0 <= j < i ==> (#[trigger] windows@[j]).pid != pid || windows@[j].title@ != title@,
{
    first_where_is_first(windows@, is_window(pid, title@));
    if r is ActivateProcess {
        assert forall|j: int| 0 <= j < windows@.len() implies (#[trigger] windows@[j]).pid != pid
            || windows@[j].title@ != title@ by {
            assert(!is_window(pid, title@)(windows@[j]));
        }
    } else {
        let i = crate::pick::first_where(windows@, is_window(pid, title@))->Some_0;
        assert(is_window(pid, title@)(windows@[i]));
        assert forall|j: int| 0 <= j < i implies (#[trigger] windows@[j]).pid != pid
            || windows@[j].title@ != title@ by {
            assert(!is_window(pid, title@)(windows@[j]));
        }
        assert(windows@[i].pid == pid && windows@[i].title@ == title@ && windows@[i].id
            == r->Raise_0);
    }
}

/// A window is visible when its process says so or the desktop lists it, and only then.
pub proof fn visible_windows_are_listed_or_reported(
    windows: Vec<WindowInfo>,
    pid: i32,
    title: &str,
    reported: bool,
    r: bool,
)
    requires
        call_ensures(is_visible, (&windows, pid, title, reported), r),
    ensures
        reported ==> r,
        forall|i: int|
            0 <= i < windows@.len() && (#[trigger] windows@[i]).pid == pid && windows@[i].title@
                == title@ ==> r,
        !reported && r ==> exists|i: int|
            0 <= i < windows@.len() && (#[trigger] windows@[i]).pid == pid && windows@[i].title@
                == title@,
{
    first_where_is_first(windows@, is_window(pid, title@));
    assert forall|i: int|
        0 <= i < windows@.len() && (#[trigger] windows@[i]).pid == pid && windows@[i].title@
            == title@ implies r by {
        assert(is_window(pid, title@)(windows@[i]));
    }
    if !reported && r {
        let i = crate::pick::first_where(windows@, is_window(pid, title@))->Some_0;
        assert(is_window(pid, title@)(windows@[i]));
        assert(windows@[i].pid == pid && windows@[i].title@ == title@);
    }
}

/// The title in front is that of the window in front; without one there is none.
pub proof fn the_title_in_front_is_the_windows(front: Option<WindowInfo>, expected: &str, r: bool)
    requires
        call_ensures(is_frontmost_title, (&front, expected), r),
    ensures
        r <==> front is Some && front->Some_0.title@ == expected@,
{
}

/// A helper that was not seen fails, with the time it had.
pub proof fn unseen_helpers_fail(title: &str, visible: bool, timeout: u64, r: Result<(), Error>)
    requires
        call_ensures(judge_visible, (title, visible, timeout), r),
    ensures
        r is Ok <==> visible,
        r is Err ==> r->Err_0 is FocusNotObserved && r->Err_0->FocusNotObserved_timeout_ms
            == timeout,
{
}

/// A least size is at least one point each way, as asked where that is more, and
/// nothing else changes.
pub proof fn least_sizes_are_at_least_a_point(
    b: HelperWindowBuilder,
    w: i64,
    h: i64,
    r: HelperWindowBuilder,
)
    requires
        call_ensures(HelperWindowBuilder::with_min_size, (b, w, h), r),
    ensures
        r.min_size is Some,
        r.min_size->Some_0.0 >= 1024 && r.min_size->Some_0.0 >= w,
        r.min_size->Some_0.1 >= 1024 && r.min_size->Some_0.1 >= h,
        r.min_size->Some_0.0 == 1024 || r.min_size->Some_0.0 == w,
        r.min_size->Some_0.1 == 1024 || r.min_size->Some_0.1 == h,
        r == (HelperWindowBuilder { min_size: r.min_size, ..b }),
{
}

/// The world is healthy exactly when it has windows, both permissions, and a poll of
/// ten milliseconds to five seconds.
pub proof fn a_healthy_world_has_all_it_needs(status: WorldStatus, r: Result<(), Error>)
    requires
        call_ensures(world_status_permissions, (&status,), r),
    ensures
        r is Ok <==> (status.windows_count >= 1 && status.accessibility == PermissionState::Granted
            && status.screen_recording == PermissionState::Granted && 10 <= status.current_poll_ms
            <= 5_000),
{
}

/// Properties are complete only where role and subrole are given and neither is empty,
/// and both abilities are known.
pub proof fn complete_properties_leave_nothing_out(props: AxProps, r: Result<(), Error>)
    requires
        call_ensures(judge_props, (&props,), r),
        r is Ok,
    ensures
        props.role is Some && props.role->Some_0@.len() > 0,
        props.subrole is Some && props.subrole->Some_0@.len() > 0,
        props.can_set_pos is Some,
        props.can_set_size is Some,
{
}

/// Only the properties of the expected window end the wait; it fails only once two
/// seconds are over.
pub proof fn only_the_expected_window_tells(
    expected: (i32, u32),
    begun: u64,
    wait: PropsWait,
    focused: Option<FocusedWindow>,
    now: u64,
    r: PropsStep,
)
    requires
        call_ensures(PropsWait::world_ax_focus_props, (expected, begun), wait),
        call_ensures(PropsWait::look, (&wait, focused, now), r),
    ensures
        r is Known ==> focused is Some && focused->Some_0.pid == expected.0 && focused->Some_0.id
            == expected.1 && focused->Some_0.ax == Some(r->Known_0),
        focused is Some && focused->Some_0.pid == expected.0 && focused->Some_0.id == expected.1
            && focused->Some_0.ax is Some ==> r is Known,
        r is Failed ==> now - begun >= 2_000_000_000,
        r is Pause ==> now - begun < 2_000_000_000,
{
}

/// The first space is shown by a window of it that is active and one of the second that
/// is not; the second, by an active window that lies on it.
pub proof fn spaces_are_shown_by_their_windows(windows: Vec<SpaceWindow>, one: bool, two: bool)
    requires
        call_ensures(shows_first_space, (&windows,), one),
        call_ensures(shows_second_space, (&windows,), two),
    ensures
        one <==> (exists|i: int|
            0 <= i < windows@.len() && (#[trigger] windows@[i]).pid == 100
                && windows@[i].on_active_space) && (exists|i: int|
            0 <= i < windows@.len() && (#[trigger] windows@[i]).pid == 200
                && !windows@[i].on_active_space),
        two <==> exists|i: int|
            0 <= i < windows@.len() && (#[trigger] windows@[i]).pid == 200
                && windows@[i].on_active_space && windows@[i].space == Some(2i64),
{
    if exists|i: int|
        0 <= i < windows@.len() && (#[trigger] windows@[i]).pid == 100
            && windows@[i].on_active_space {
        let i = choose|i: int|
            0 <= i < windows@.len() && (#[trigger] windows@[i]).pid == 100
                && windows@[i].on_active_space;
        assert(windows@[i].on_active_space == true);
    }
    if exists|i: int|
        0 <= i < windows@.len() && (#[trigger] windows@[i]).pid == 200
            && !windows@[i].on_active_space {
        let i = choose|i: int|
            0 <= i < windows@.len() && (#[trigger] windows@[i]).pid == 200
                && !windows@[i].on_active_space;
        assert(windows@[i].on_active_space == false);
    }
}

/// The simulation ends well only when the change was adopted within a quarter of a
/// second, and an update takes, and comes, no longer than that.
pub proof fn the_simulation_keeps_its_budget(
    before: SpacesRun,
    event: SpacesEvent,
    now: u64,
    after: SpacesRun,
    action: SpacesAction,
)
    requires
        spaces_answer(before, event, now, after, action),
    ensures
        action is Finish && action->Finish_0 is Ok ==> event is Status && event->Status_0 <= 250
            && event->Status_1 <= 250 && action->Finish_0->Ok_0.adoption_ms == before.adoption_ms
            && action->Finish_0->Ok_0.last_tick_ms == event->Status_0
            && action->Finish_0->Ok_0.current_poll_ms == event->Status_1,
        before.stage is Measuring && event is Status && event->Status_0 <= 250 && event->Status_1
            <= 250 ==> action is Finish && action->Finish_0 is Ok,
        before.stage is Adopting && after.stage is Checking && now >= before.start ==> now
            - before.start < 251_000_000 && after.adoption_ms * 1_000_000 <= now - before.start < (
        after.adoption_ms + 1) * 1_000_000,
        before.stage is Switching ==> after.start == now && after.deadline - now
            == before.timeout_ms * 1_000_000,
{
}

/// A kind of request was made exactly when one of the requests is of that kind.
pub proof fn a_kind_was_made_by_a_request(ops: Vec<FakeOp>, kind: FakeKind, r: Result<(), Error>)
    requires
        call_ensures(ensure_fake_op, (&ops, kind), r),
    ensures
        kind is Apply ==> (r is Ok <==> exists|i: int|
            0 <= i < ops@.len() && (#[trigger] ops@[i]) is Apply),
        kind is Nudge ==> (r is Ok <==> exists|i: int|
            0 <= i < ops@.len() && (#[trigger] ops@[i]) is Nudge),
        kind is Fallback ==> (r is Ok <==> exists|i: int|
            0 <= i < ops@.len() && (#[trigger] ops@[i]) is Fallback),
{
    let calls = crate::place::adapter::calls_of(ops@);
    assert forall|i: int| 0 <= i < ops@.len() implies #[trigger] calls[i] == ops@[i]@ by {}
    if r is Ok {
        let i = choose|i: int| 0 <= i < calls.len() && kind.covers(#[trigger] calls[i]);
        assert(calls[i] == ops@[i]@);
        assert(kind is Apply ==> ops@[i] is Apply);
        assert(kind is Nudge ==> ops@[i] is Nudge);
        assert(kind is Fallback ==> ops@[i] is Fallback);
    } else {
        assert forall|i: int| 0 <= i < ops@.len() implies !(kind is Apply && (
        #[trigger] ops@[i]) is Apply) && !(kind is Nudge && ops@[i] is Nudge) && !(kind is Fallback
            && ops@[i] is Fallback) by {
            assert(calls[i] == ops@[i]@);
            assert(!kind.covers(calls[i]));
        }
    }
}

/// A flow passes only when the window was verified at (100, 200) with 640 by 480 points.
pub proof fn flows_pass_on_the_target(
    label: &str,
    outcome: Result<PlacementOutcome, crate::error::Error>,
    ops: Vec<FakeOp>,
    kind: FakeKind,
    r: Result<(), Error>,
)
    requires
        call_ensures(judge_flow, (label, &outcome, &ops, kind), r),
    ensures
        r is Ok ==> outcome is Ok && outcome->Ok_0 is Verified && ({
            let rect = outcome->Ok_0->Verified_0.final_rect;
            rect.x == 100 * 1024 && rect.y == 200 * 1024 && rect.w == 640 * 1024 && rect.h == 480
                * 1024
        }),
{
}

} // verus!
