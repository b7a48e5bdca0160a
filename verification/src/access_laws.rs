//! What permissions, modifiers and the other small rules are good for.

use vstd::prelude::*;

use crate::error::Error;
use crate::geom::{Axis, Point, Rect, Size, UNITS_PER_POINT};
use crate::permissions::{check_permissions, PermissionState, PermissionsStatus};
use crate::place::apply::nudge_position;
use crate::place::common::{
    choose_initial_order, FallbackRule, PlaceAttemptOptions, PlacementDecisionHooks,
    PlacementTuning, RetryLimits, SafeParkRule, SettleTiming, POLL_SLEEP_MS, POLL_TOTAL_MS,
    VERIFY_EPS,
};
use crate::place::fallback::safe_size;
use crate::place::normalize::{
    ax_window_for_id_with_retry, normalize_result, LookupStep, NormalizeAction,
};
use crate::place::ops::{ax_check, raises_after_move};
use crate::raise::{
    ax_window_id, ax_windows_result, crosses_app_boundary, element_raise_worked,
    order_failure_level,
};
use crate::relaykey::{
    codes_among, every_modifier_is_posted, mod_keycodes, modifier_events, needs_hotki_tag,
    press_order, Modifier, Modifiers, RelayDestination,
};
use crate::status::{policy, Level, StatusKind, StatusPolicy};
use crate::window::WindowInfo;

verus! {

/// A permission is granted exactly where the system says so, each on its own.
pub proof fn permissions_are_as_the_system_says(
    a: bool,
    b: bool,
    c: bool,
    all: PermissionsStatus,
    x: bool,
    y: bool,
    z: bool,
)
    requires
        call_ensures(check_permissions, (a, b, c), all),
        call_ensures(PermissionsStatus::accessibility_ok, (all,), x),
        call_ensures(PermissionsStatus::input_ok, (all,), y),
        call_ensures(PermissionsStatus::screen_recording_ok, (all,), z),
    ensures
        x == a,
        y == b,
        z == c,
{
}

/// Only a granted permission counts as one.
pub proof fn unknown_is_not_granted(p: PermissionState, r: bool)
    requires
        call_ensures(PermissionState::is_granted, (p,), r),
    ensures
        r <==> p == PermissionState::Granted,
        p == PermissionState::Unknown || p == PermissionState::Denied ==> !r,
{
}

/// Two status codes are expected noise, each from its own source, and both are logged
/// below a warning.
pub proof fn noise_is_logged_quietly(kind: StatusKind, code: i32, r: Option<StatusPolicy>)
    requires
        call_ensures(policy, (kind, code), r),
    ensures
        kind == StatusKind::AxObserverAttach ==> (r is Some <==> code == -25204),
        kind == StatusKind::CgsOrderWindow ==> (r is Some <==> code == 1000),
        r is Some ==> r->Some_0.level == Level::DEBUG || r->Some_0.level == Level::TRACE,
{
}

/// Failing to order a window of another process is only traced; any other failure is a
/// warning.
pub proof fn unexpected_failures_are_warned_about(code: i32, r: Level)
    requires
        call_ensures(order_failure_level, (code,), r),
    ensures
        r == Level::WARN <==> code != 1000,
        r == Level::TRACE <==> code == 1000,
{
}

/// The keycodes are those of the modifiers of the set, by the numbers that the keyboard
/// has for them.
pub proof fn modifiers_are_posted_by_their_numbers(mods: Modifiers, r: Vec<u16>)
    requires
        call_ensures(mod_keycodes, (&mods,), r),
    ensures
        r@.contains(59u16) <==> mods.control,
        r@.contains(62u16) <==> mods.right_control,
        r@.contains(58u16) <==> mods.option,
        r@.contains(61u16) <==> mods.right_option,
        r@.contains(56u16) <==> mods.shift,
        r@.contains(60u16) <==> mods.right_shift,
        r@.contains(55u16) <==> mods.command,
        r@.contains(54u16) <==> mods.right_command,
        forall|i: int| 0 <= i < r@.len() ==> 54 <= #[trigger] r@[i] <= 62,
{
    every_modifier_is_posted(mods, Modifier::Control);
    every_modifier_is_posted(mods, Modifier::RightControl);
    every_modifier_is_posted(mods, Modifier::Option);
    every_modifier_is_posted(mods, Modifier::RightOption);
    every_modifier_is_posted(mods, Modifier::Shift);
    every_modifier_is_posted(mods, Modifier::RightShift);
    every_modifier_is_posted(mods, Modifier::Command);
    every_modifier_is_posted(mods, Modifier::RightCommand);
    codes_are_modifiers(mods, press_order());
}

proof fn codes_are_modifiers(mods: Modifiers, order: Seq<Modifier>)
    ensures
        forall|i: int|
            0 <= i < codes_among(mods, order).len() ==> 54 <= #[trigger] codes_among(
                mods,
                order,
            )[i] <= 62,
    decreases order.len(),
{
    if order.len() > 0 {
        codes_are_modifiers(mods, order.drop_last());
        let before = codes_among(mods, order.drop_last());
        let now = codes_among(mods, order);
        assert forall|i: int| 0 <= i < now.len() implies 54 <= #[trigger] now[i] <= 62 by {
            if i < before.len() {
                assert(now[i] == before[i]);
            }
        }
    }
}

proof fn codes_come_once(mods: Modifiers, order: Seq<Modifier>)
    requires
        forall|i: int, j: int| 0 <= i < j < order.len() ==> order[i] != order[j],
    ensures
        forall|i: int, j: int|
            0 <= i < j < codes_among(mods, order).len() ==> codes_among(mods, order)[i]
                != codes_among(mods, order)[j],
        forall|i: int|
            0 <= i < codes_among(mods, order).len() ==> exists|k: int|
                0 <= k < order.len() && (#[trigger] order[k]).code() == #[trigger] codes_among(
                    mods,
                    order,
                )[i],
    decreases order.len(),
{
    if order.len() > 0 {
        let rest = order.drop_last();
        let last = order.last();
        codes_come_once(mods, rest);
        let before = codes_among(mods, rest);
        let now = codes_among(mods, order);
        assert forall|i: int| 0 <= i < now.len() implies exists|k: int|
            0 <= k < order.len() && (#[trigger] order[k]).code() == #[trigger] now[i] by {
            if i < before.len() {
                let k = choose|k: int|
                    0 <= k < rest.len() && (#[trigger] rest[k]).code() == before[i];
                assert(order[k] == rest[k]);
            } else {
                assert(order[order.len() - 1] == last);
            }
        }
        assert forall|i: int, j: int| 0 <= i < j < now.len() implies now[i] != now[j] by {
            if j >= before.len() {
                let k = choose|k: int|
                    0 <= k < rest.len() && (#[trigger] rest[k]).code() == before[i];
                assert(order[k] == rest[k]);
                assert(order[k] != order[order.len() - 1]);
            }
        }
    }
}

/// No modifier is pressed twice, and what is pressed first is released last.
pub proof fn modifiers_are_released_in_reverse(mods: Modifiers, down: Vec<u16>, up: Vec<u16>)
    requires
        call_ensures(modifier_events, (&mods, true), down),
        call_ensures(modifier_events, (&mods, false), up),
    ensures
        up@.len() == down@.len(),
        forall|i: int| 0 <= i < down@.len() ==> #[trigger] down@[i] == up@[up@.len() - 1 - i],
        forall|i: int, j: int| 0 <= i < j < down@.len() ==> down@[i] != down@[j],
        mods.control ==> down@[0] == 59u16,
{
    let order = press_order();
    codes_come_once(mods, order);
    if mods.control {
        control_comes_first(mods, order);
    }
}

proof fn control_comes_first(mods: Modifiers, order: Seq<Modifier>)
    requires
        mods.control,
        order.len() > 0,
        order[0] == Modifier::Control,
    ensures
        codes_among(mods, order).len() > 0,
        codes_among(mods, order)[0] == 59u16,
    decreases order.len(),
{
    let rest = order.drop_last();
    if rest.len() > 0 {
        assert(rest[0] == order[0]);
        control_comes_first(mods, rest);
    } else {
        assert(order.last() == order[0]);
        assert(codes_among(mods, rest) =~= Seq::empty());
    }
}

/// Only what comes back through the event stream is marked.
pub proof fn only_the_event_stream_is_marked(d: RelayDestination, r: bool)
    requires
        call_ensures(needs_hotki_tag, (d,), r),
    ensures
        d == RelayDestination::Hid ==> r,
        d is Process ==> !r,
{
}

/// Raising crosses to another application exactly when the window in front is not of
/// the process.
pub proof fn another_application_is_crossed_to(front: Option<WindowInfo>, pid: i32, r: bool)
    requires
        call_ensures(crosses_app_boundary, (&front, pid), r),
    ensures
        !r <==> front is Some && front->Some_0.pid == pid,
{
}

/// An identifier that the window server knows is taken before the number of the
/// element; without either there is none.
pub proof fn known_identifiers_come_first(
    known: Option<u32>,
    number: Option<Option<i64>>,
    r: Option<u32>,
)
    requires
        call_ensures(ax_window_id, (known, number), r),
    ensures
        known is Some ==> r == known,
        known is None && number is None ==> r is None,
        known is None && number is Some && number->Some_0 is Some && 0 <= number->Some_0->Some_0
            <= u32::MAX ==> r is Some && r->Some_0 == number->Some_0->Some_0,
        known is None && number == Some(None::<i64>) ==> r == Some(0u32),
{
}

/// Raising an element works only when each part of it does.
pub proof fn raising_takes_every_part(read: bool, offers: bool, performed: bool, r: bool)
    requires
        call_ensures(element_raise_worked, (read, offers, performed), r),
    ensures
        r ==> read,
        r ==> offers,
        r ==> performed,
        read && offers && performed ==> r,
{
}

/// Windows come only with a good status; otherwise the status is the error.
pub proof fn windows_come_with_a_good_status<T>(
    status: i32,
    list: Option<T>,
    r: Result<T, Error>,
)
    requires
        call_ensures(ax_windows_result::<T>, (status, list), r),
    ensures
        r is Ok <==> status == 0 && list is Some,
        r is Ok ==> list == Some(r->Ok_0),
        r is Err ==> r->Err_0 == Error::AxCode(status),
{
}

/// Windows can be placed only with the permission and on the main thread; the
/// permission is asked for first.
pub proof fn placing_takes_permission_and_thread(trusted: bool, main: bool, r: Result<(), Error>)
    requires
        call_ensures(ax_check, (trusted, main), r),
    ensures
        r is Ok <==> trusted && main,
        r is Err && !trusted ==> r->Err_0 == Error::Permission,
        r is Err && trusted ==> r->Err_0 == Error::MainThread,
{
}

/// A move is followed by raising only when it missed its place.
pub proof fn only_a_missed_move_raises(result: Result<(), Error>, r: bool)
    requires
        call_ensures(raises_after_move, (&result,), r),
    ensures
        result is Ok ==> !r,
        result is Err ==> (r <==> result->Err_0 is PlacementVerificationFailed),
{
}

/// The size comes first only where the position is known to be fixed and the size is
/// known not to be.
pub proof fn the_position_comes_first_by_default(pos: Option<bool>, size: Option<bool>, r: bool)
    requires
        call_ensures(choose_initial_order, (pos, size), r),
    ensures
        !r <==> pos == Some(false) && size == Some(true),
{
}

/// A window that has not surfaced is searched for again after twenty milliseconds, forty
/// times at most; any other answer ends the search as it is.
pub proof fn hidden_windows_are_searched_for_again<T>(
    attempts: usize,
    result: Result<T, Error>,
    r: LookupStep<T>,
)
    requires
        call_ensures(ax_window_for_id_with_retry::<T>, (attempts, result), r),
    ensures
        r is Retry <==> attempts < 40 && result is Err && result->Err_0 == Error::FocusedWindow,
        r is Retry ==> r->attempts == attempts + 1 && r->delay_ms == 20,
        r is Finished ==> r->Finished_0 == result,
{
}

/// A window is given up only where it is full screen.
pub proof fn only_full_screen_is_given_up(last: NormalizeAction, r: Result<(), Error>)
    requires
        call_ensures(normalize_result, (last,), r),
    ensures
        r is Err <==> last == NormalizeAction::GiveUp,
        r is Err ==> r->Err_0 == Error::FullscreenActive,
{
}

/// A window is in its place within two points, and is looked at every twenty-five
/// milliseconds for four hundred.
pub proof fn placement_keeps_its_tolerance()
    ensures
        VERIFY_EPS == 2 * UNITS_PER_POINT,
        UNITS_PER_POINT == 1024,
        POLL_SLEEP_MS == 25,
        POLL_TOTAL_MS == 400,
{
}

/// A nudge takes the target's coordinate along its axis and leaves the other alone.
pub proof fn a_nudge_moves_along_one_axis(at: Point, target: Rect, axis: Axis, r: Point)
    requires
        call_ensures(nudge_position, (at, &target, axis), r),
    ensures
        axis == Axis::Horizontal ==> r.x == target.x && r.y == at.y,
        axis == Axis::Vertical ==> r.y == target.y && r.x == at.x,
{
}

/// A safe size is at most four hundred by three hundred points and never larger than
/// the target; a target that small keeps its size.
pub proof fn safe_sizes_are_small(target: Rect, r: Size)
    requires
        call_ensures(safe_size, (&target,), r),
    ensures
        r.width <= 400 * 1024 && r.width <= target.w,
        r.height <= 300 * 1024 && r.height <= target.h,
        target.w <= 400 * 1024 ==> r.width == target.w,
        target.w > 400 * 1024 ==> r.width == 400 * 1024,
        target.h <= 300 * 1024 ==> r.height == target.h,
        target.h > 300 * 1024 ==> r.height == 300 * 1024,
{
}

/// Every limit goes where its name says.
pub proof fn limits_go_where_they_belong(a: u32, b: u32, c: u32, d: u32, r: RetryLimits)
    requires
        call_ensures(RetryLimits::new, (a, b, c, d), r),
    ensures
        r.max_axis_nudges == a,
        r.max_opposite_order == b,
        r.max_anchor_attempts == c,
        r.max_fallback_runs == d,
{
}

/// A change of the tuning changes what it names and keeps the other.
pub proof fn tuning_changes_one_thing(
    t: PlacementTuning,
    eps: i64,
    timing: SettleTiming,
    e: PlacementTuning,
    s: PlacementTuning,
)
    requires
        call_ensures(PlacementTuning::with_epsilon, (t, eps), e),
        call_ensures(PlacementTuning::with_settle_timing, (t, timing), s),
    ensures
        e.epsilon == eps && e.settle_timing == t.settle_timing,
        s.settle_timing == timing && s.epsilon == t.epsilon,
{
}

/// An option that is changed is read back as it was set, and no other one changes.
pub proof fn options_are_read_back<H>(
    o: PlaceAttemptOptions<H>,
    on: bool,
    limits: RetryLimits,
    tuning: PlacementTuning,
    second: PlaceAttemptOptions<H>,
    only: PlaceAttemptOptions<H>,
    limited: PlaceAttemptOptions<H>,
    tuned: PlaceAttemptOptions<H>,
)
    requires
        call_ensures(PlaceAttemptOptions::<H>::with_force_second_attempt, (o, on), second),
        call_ensures(PlaceAttemptOptions::<H>::with_pos_first_only, (o, on), only),
        call_ensures(PlaceAttemptOptions::<H>::with_retry_limits, (o, limits), limited),
        call_ensures(PlaceAttemptOptions::<H>::with_tuning, (o, tuning), tuned),
    ensures
        second@.force_second_attempt == on && second@.pos_first_only == o@.pos_first_only
            && second@.retry_limits == o@.retry_limits && second@.tuning == o@.tuning
            && second@.hooks == o@.hooks,
        only@.pos_first_only == on && only@.force_second_attempt == o@.force_second_attempt
            && only@.retry_limits == o@.retry_limits && only@.tuning == o@.tuning && only@.hooks
            == o@.hooks,
        limited@.retry_limits == limits && limited@.force_second_attempt
            == o@.force_second_attempt && limited@.pos_first_only == o@.pos_first_only
            && limited@.tuning == o@.tuning && limited@.hooks == o@.hooks,
        tuned@.tuning == tuning && tuned@.force_second_attempt == o@.force_second_attempt
            && tuned@.pos_first_only == o@.pos_first_only && tuned@.retry_limits == o@.retry_limits
            && tuned@.hooks == o@.hooks,
{
}

/// A rule that is changed replaces its own kind alone.
pub proof fn rules_replace_their_own_kind(
    h: PlacementDecisionHooks,
    park: SafeParkRule,
    fallback: FallbackRule,
    a: PlacementDecisionHooks,
    b: PlacementDecisionHooks,
)
    requires
        call_ensures(PlacementDecisionHooks::with_safe_park, (h, park), a),
        call_ensures(PlacementDecisionHooks::with_fallback, (h, fallback), b),
    ensures
        a.safe_park == park && a.fallback == h.fallback,
        b.fallback == fallback && b.safe_park == h.safe_park,
{
}

} // verus!
