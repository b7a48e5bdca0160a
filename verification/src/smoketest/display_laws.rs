//! Where windows are found to stand on the displays.

use vstd::prelude::*;

use crate::geom::Rect;
use crate::pick::{first_where_at, first_where_is_first, first_where_none};
use crate::smoketest::error::Error;
use crate::smoketest::windows::{
    common, display_for_rect, display_ids, display_ids_are_listed_once, display_named,
    focused_display_id, global_top, holds_most, is_display_for, is_notification_candidate,
    lowest_first, middle_in, notification_like, notification_positions, overlap, overlap_area,
    owned_positions, sort_lowest_first, the_lowest_window_comes_first, verify_display_alignment,
    verify_notification_window, widest, with_window, AppKitScreen, CgWindow, DisplayFrame,
    HudDisplay, WindowSnapshot,
};

verus! {

/// Whether two rectangles have some area in common.
pub open spec fn meet(a: Rect, b: Rect) -> bool {
    &&& a.x < b.x + b.w && b.x < a.x + a.w
    &&& a.y < b.y + b.h && b.y < a.y + a.h
    &&& a.w > 0 && a.h > 0 && b.w > 0 && b.h > 0
}

proof fn overlap_is_shared_area(rect: Rect, display: DisplayFrame)
    requires
        rect.w > 0,
        rect.h > 0,
        display.frame.w > 0,
        display.frame.h > 0,
    ensures
        overlap(rect, display) > 0 <==> meet(rect, display.frame),
        !meet(rect, display.frame) ==> overlap(rect, display) == 0,
        !meet(rect, display.frame) ==> !holds_most(display, rect) && !middle_in(display, rect),
{
    let f = display.frame;
    let cx = common(rect.x as int, rect.w as int, f.x as int, f.w as int);
    let cy = common(rect.y as int, rect.h as int, f.y as int, f.h as int);
    assert(cx >= 0 && cy >= 0);
    assert(cx * cy > 0 <==> cx > 0 && cy > 0) by (nonlinear_arith)
        requires
            cx >= 0,
            cy >= 0,
    ;
    assert(cx * cy >= 0) by (nonlinear_arith)
        requires
            cx >= 0,
            cy >= 0,
    ;
    assert(rect.w * rect.h > 0) by (nonlinear_arith)
        requires
            rect.w > 0,
            rect.h > 0,
    ;
}

/// A rectangle that has some area in common with one display alone is on that display,
/// however little it is; one that has none in common with any is on none.
pub proof fn a_rectangle_is_on_the_display_that_it_meets(
    rect: Rect,
    displays: Vec<DisplayFrame>,
    r: Option<u32>,
)
    requires
        call_ensures(display_for_rect, (&rect, &displays), r),
        rect.w > 0,
        rect.h > 0,
        forall|j: int|
            0 <= j < displays@.len() ==> (#[trigger] displays@[j]).frame.w > 0
                && displays@[j].frame.h > 0,
    ensures
        forall|i: int|
            0 <= i < displays@.len() && meet(rect, (#[trigger] displays@[i]).frame) && (forall|j: int|
                0 <= j < displays@.len() && j != i ==> !meet(rect, (#[trigger] displays@[j]).frame))
                ==> r == Some(displays@[i].id),
        (forall|j: int|
            0 <= j < displays@.len() ==> !meet(rect, (#[trigger] displays@[j]).frame)) ==> r is None,
{
    assert forall|j: int| 0 <= j < displays@.len() implies {
        let d = #[trigger] displays@[j];
        &&& overlap(rect, d) > 0 <==> meet(rect, d.frame)
        &&& !meet(rect, d.frame) ==> overlap(rect, d) == 0 && !holds_most(d, rect) && !middle_in(
            d,
            rect,
        )
    } by {
        overlap_is_shared_area(rect, displays@[j]);
    }
    assert(is_display_for(displays@, rect, r));
    assert forall|i: int|
        0 <= i < displays@.len() && meet(rect, (#[trigger] displays@[i]).frame) && (forall|j: int|
            0 <= j < displays@.len() && j != i ==> !meet(rect, (#[trigger] displays@[j]).frame))
        implies r == Some(displays@[i].id) by {
        if exists|k: int| 0 <= k < displays@.len() && holds_most(#[trigger] displays@[k], rect) {
            let k = choose|k: int|
                {
                    &&& 0 <= k < displays@.len()
                    &&& holds_most(#[trigger] displays@[k], rect)
                    &&& forall|j: int| 0 <= j < k ==> !holds_most(#[trigger] displays@[j], rect)
                    &&& r == Some(displays@[k].id)
                };
            assert(meet(rect, displays@[k].frame));
        } else if exists|k: int| 0 <= k < displays@.len() && middle_in(#[trigger] displays@[k], rect) {
            let k = choose|k: int|
                {
                    &&& 0 <= k < displays@.len()
                    &&& middle_in(#[trigger] displays@[k], rect)
                    &&& forall|j: int| 0 <= j < k ==> !middle_in(#[trigger] displays@[j], rect)
                    &&& r == Some(displays@[k].id)
                };
            assert(meet(rect, displays@[k].frame));
        } else {
            assert(overlap(rect, displays@[i]) > 0);
            let k = choose|k: int| #[trigger] widest(displays@, rect, k) && displays@[k].id == r->0;
            assert(meet(rect, displays@[k].frame));
        }
    }
    if forall|j: int| 0 <= j < displays@.len() ==> !meet(rect, (#[trigger] displays@[j]).frame) {
        if r is Some {
            let k = choose|k: int| #[trigger] widest(displays@, rect, k) && displays@[k].id == r->0;
            assert(overlap(rect, displays@[k]) == 0);
        }
    }
}

/// The area that a rectangle has in common with a display is its own when the display holds
/// it, and nothing when they do not meet; it is never more than either area.
pub proof fn shared_area_is_at_most_the_whole(rect: Rect, display: DisplayFrame, r: i128)
    requires
        call_ensures(overlap_area, (&rect, &display), r),
        rect.w > 0,
        rect.h > 0,
        display.frame.w > 0,
        display.frame.h > 0,
    ensures
        0 <= r <= rect.w * rect.h,
        r <= display.frame.w * display.frame.h,
        r == 0 <==> !meet(rect, display.frame),
        display.frame.x <= rect.x && rect.x + rect.w <= display.frame.x + display.frame.w
            && display.frame.y <= rect.y && rect.y + rect.h <= display.frame.y + display.frame.h
            ==> r == rect.w * rect.h,
{
    let f = display.frame;
    let cx = common(rect.x as int, rect.w as int, f.x as int, f.w as int);
    let cy = common(rect.y as int, rect.h as int, f.y as int, f.h as int);
    overlap_is_shared_area(rect, display);
    let (w, h) = (rect.w as int, rect.h as int);
    let (fw, fh) = (f.w as int, f.h as int);
    assert(0 <= cx * cy <= w * h && cx * cy <= fw * fh) by (nonlinear_arith)
        requires
            0 <= cx <= w,
            0 <= cy <= h,
            cx <= fw,
            cy <= fh,
    ;
}

proof fn displays_are_decided(displays: Seq<DisplayFrame>, rect: Rect, a: Option<u32>, b: Option<u32>)
    requires
        is_display_for(displays, rect, a),
        is_display_for(displays, rect, b),
    ensures
        a == b,
{
    if exists|i: int| 0 <= i < displays.len() && holds_most(#[trigger] displays[i], rect) {
    } else if exists|i: int| 0 <= i < displays.len() && middle_in(#[trigger] displays[i], rect) {
    } else {
        if a is Some && b is Some {
            let i = choose|i: int| #[trigger] widest(displays, rect, i) && displays[i].id == a->0;
            let j = choose|j: int| #[trigger] widest(displays, rect, j) && displays[j].id == b->0;
            if i < j {
                assert(overlap(rect, displays[j]) < overlap(rect, displays[i]));
                assert(overlap(rect, displays[i]) <= overlap(rect, displays[j]));
            } else if j < i {
                assert(overlap(rect, displays[i]) < overlap(rect, displays[j]));
                assert(overlap(rect, displays[j]) <= overlap(rect, displays[i]));
            }
        } else if a is Some {
            let i = choose|i: int| #[trigger] widest(displays, rect, i) && displays[i].id == a->0;
            assert(overlap(rect, displays[i]) <= 0);
        } else if b is Some {
            let i = choose|i: int| #[trigger] widest(displays, rect, i) && displays[i].id == b->0;
            assert(overlap(rect, displays[i]) <= 0);
        }
    }
}

/// The focused display is the one that the first ordinary window listed is on.
pub proof fn the_focused_display_is_that_of_the_front_window(
    listed: Vec<CgWindow>,
    displays: Vec<DisplayFrame>,
    r: Option<u32>,
    i: int,
    bounds: Rect,
    on: Option<u32>,
)
    requires
        call_ensures(focused_display_id, (&listed, &displays), r),
        call_ensures(display_for_rect, (&bounds, &displays), on),
        0 <= i < listed@.len(),
        listed@[i].layer == Some(0i32),
        forall|j: int| 0 <= j < i ==> (#[trigger] listed@[j]).layer != Some(0i32),
    ensures
        listed@[i].bounds == Some(bounds) ==> r == on,
        listed@[i].bounds is None ==> r is None,
{
    if listed@[i].bounds == Some(bounds) {
        displays_are_decided(displays@, bounds, r, on);
    }
}

/// The windows of a process are those that name it as their owner, in the order in which
/// they are listed.
pub proof fn owned_windows_are_taken_in_order(windows: Seq<CgWindow>, pid: i32)
    ensures
        ({
            let at = owned_positions(windows, pid);
            &&& forall|i: int| 0 <= i < at.len() ==> 0 <= #[trigger] at[i] < windows.len()
            &&& forall|i: int, j: int| 0 <= i < j < at.len() ==> #[trigger] at[i] < #[trigger] at[j]
            &&& forall|k: int|
                0 <= k < windows.len() ==> ((#[trigger] windows[k]).owner_pid == Some(pid)
                    <==> at.contains(k))
        }),
    decreases windows.len(),
{
    if windows.len() > 0 {
        let rest = windows.drop_last();
        let last = windows.len() - 1;
        owned_windows_are_taken_in_order(rest, pid);
        let before = owned_positions(rest, pid);
        let at = owned_positions(windows, pid);
        assert forall|k: int| 0 <= k < windows.len() implies ((#[trigger] windows[k]).owner_pid
            == Some(pid) <==> at.contains(k)) by {
            if k < last {
                assert(rest[k] == windows[k]);
                if before.contains(k) {
                    let i = choose|i: int| 0 <= i < before.len() && before[i] == k;
                    assert(at[i] == k);
                }
                if at.contains(k) {
                    let i = choose|i: int| 0 <= i < at.len() && at[i] == k;
                    assert(before[i] == k);
                }
            } else {
                if at.contains(k) {
                    let i = choose|i: int| 0 <= i < at.len() && at[i] == k;
                    if i < before.len() {
                        assert(before[i] < rest.len());
                    }
                }
                if windows[k].owner_pid == Some(pid) {
                    assert(at[before.len() as int] == k);
                }
            }
        }
    }
}

/// Only windows larger than 24 by 16 points and not below layer zero look like
/// notifications. One with their title does; any other only when it lies above the ordinary
/// windows, is wider than tall, at most 640 by 240 points, and no larger than its display.
pub proof fn notifications_are_small_and_wide(
    window: WindowSnapshot,
    displays: Vec<DisplayFrame>,
    r: bool,
)
    requires
        call_ensures(is_notification_candidate, (&window, &displays), r),
    ensures
        r ==> window.layer >= 0 && window.bounds.w > 24 * 1024 && window.bounds.h > 16 * 1024,
        window.layer >= 0 && window.bounds.w > 24 * 1024 && window.bounds.h > 16 * 1024
            && window.title@ == "Hotki Notification"@ ==> r,
        r && window.title@ != "Hotki Notification"@ ==> {
            &&& window.layer > 0
            &&& window.bounds.h <= window.bounds.w <= 640 * 1024
            &&& window.bounds.h <= 240 * 1024
            &&& window.display_id is Some
            &&& exists|i: int|
                0 <= i < displays@.len() && (#[trigger] displays@[i]).id == window.display_id->0
                    && window.bounds.w <= displays@[i].frame.w && window.bounds.h
                    <= displays@[i].frame.h
        },
        forall|i: int|
            0 <= i < displays@.len() && window.display_id == Some((#[trigger] displays@[i]).id) && (
            forall|j: int| 0 <= j < i ==> (#[trigger] displays@[j]).id != displays@[i].id)
                && window.layer > 0 && 24 * 1024 < window.bounds.w <= 640 * 1024 && 16 * 1024
                < window.bounds.h <= 240 * 1024 && window.bounds.w >= window.bounds.h
                && window.bounds.w <= displays@[i].frame.w && window.bounds.h
                <= displays@[i].frame.h ==> r,
{
    if let Some(id) = window.display_id {
        let p = display_named(id);
        first_where_is_first(displays@, p);
        assert forall|i: int|
            0 <= i < displays@.len() && window.display_id == Some((#[trigger] displays@[i]).id) && (
            forall|j: int| 0 <= j < i ==> (#[trigger] displays@[j]).id != displays@[i].id)
                && window.layer > 0 && 24 * 1024 < window.bounds.w <= 640 * 1024 && 16 * 1024
                < window.bounds.h <= 240 * 1024 && window.bounds.w >= window.bounds.h
                && window.bounds.w <= displays@[i].frame.w && window.bounds.h
                <= displays@[i].frame.h implies r by {
            first_where_at(displays@, p, i);
        }
    }
}

/// The windows that look like notifications are named in order, and no other is.
pub proof fn notifications_are_taken_in_order(
    windows: Seq<WindowSnapshot>,
    displays: Seq<DisplayFrame>,
)
    ensures
        ({
            let at = notification_positions(windows, displays);
            &&& forall|i: int| 0 <= i < at.len() ==> 0 <= #[trigger] at[i] < windows.len()
            &&& forall|i: int, j: int| 0 <= i < j < at.len() ==> #[trigger] at[i] < #[trigger] at[j]
            &&& forall|k: int|
                0 <= k < windows.len() ==> (notification_like(#[trigger] windows[k], displays)
                    <==> at.contains(k))
        }),
    decreases windows.len(),
{
    if windows.len() > 0 {
        let rest = windows.drop_last();
        let last = windows.len() - 1;
        notifications_are_taken_in_order(rest, displays);
        let before = notification_positions(rest, displays);
        let at = notification_positions(windows, displays);
        assert forall|k: int| 0 <= k < windows.len() implies (notification_like(
            #[trigger] windows[k],
            displays,
        ) <==> at.contains(k)) by {
            if k < last {
                assert(rest[k] == windows[k]);
                if before.contains(k) {
                    let i = choose|i: int| 0 <= i < before.len() && before[i] == k;
                    assert(at[i] == k);
                }
                if at.contains(k) {
                    let i = choose|i: int| 0 <= i < at.len() && at[i] == k;
                    assert(before[i] == k);
                }
            } else {
                if at.contains(k) {
                    let i = choose|i: int| 0 <= i < at.len() && at[i] == k;
                    if i < before.len() {
                        assert(before[i] < rest.len());
                    }
                }
                if notification_like(windows[k], displays) {
                    assert(at[before.len() as int] == k);
                }
            }
        }
    }
}

/// A notification is accepted exactly when it stands at the top right of its display: its
/// right edge no further than 14 points from the display's, its top no further than 14
/// points from the place 12 points below the visible top, and no taller than what is left
/// between margins of 12 points, with two points of slack.
pub proof fn accepted_notifications_stand_in_their_corner(
    window: WindowSnapshot,
    displays: Vec<DisplayFrame>,
    r: Result<(), Error>,
    i: int,
)
    requires
        call_ensures(verify_notification_window, (&window, &displays), r),
        0 <= i < displays@.len(),
        window.display_id == Some(displays@[i].id),
        forall|j: int| 0 <= j < i ==> (#[trigger] displays@[j]).id != displays@[i].id,
    ensures
        r is Ok <==> {
            let d = displays@[i];
            let right = (window.bounds.x + window.bounds.w) - (d.frame.x + d.frame.w);
            let top = window.bounds.y - d.visible_y - 12 * 1024;
            &&& -14 * 1024 <= right <= 14 * 1024
            &&& -14 * 1024 <= top <= 14 * 1024
            &&& window.bounds.h <= d.visible_height - 24 * 1024 + 2 * 1024 || window.bounds.h <= 3
                * 1024
        },
{
    first_where_at(displays@, display_named(displays@[i].id), i);
}

/// A notification on no display, or on one that is not there, is not accepted.
pub proof fn notifications_need_a_display(
    window: WindowSnapshot,
    displays: Vec<DisplayFrame>,
    r: Result<(), Error>,
)
    requires
        call_ensures(verify_notification_window, (&window, &displays), r),
        forall|j: int|
            0 <= j < displays@.len() ==> Some((#[trigger] displays@[j]).id) != window.display_id,
    ensures
        r is Err,
{
    if let Some(id) = window.display_id {
        first_where_none(displays@, display_named(id));
    }
}

proof fn filter_one_more(s: Seq<WindowSnapshot>, w: WindowSnapshot, p: spec_fn(WindowSnapshot) -> bool)
    ensures
        s.push(w).filter(p) == if p(w) {
            s.filter(p).push(w)
        } else {
            s.filter(p)
        },
{
    reveal(Seq::filter);
    assert(s.push(w).drop_last() =~= s);
}

proof fn inserting_keeps_equals_in_order(
    sorted: Seq<WindowSnapshot>,
    w: WindowSnapshot,
    edge: int,
)
    ensures
        with_window(sorted, w).filter(with_edge(edge)) == sorted.push(w).filter(with_edge(edge)),
    decreases sorted.len(),
{
    let p = with_edge(edge);
    filter_one_more(sorted, w, p);
    if sorted.len() == 0 {
        assert(with_window(sorted, w) =~= sorted.push(w));
    } else if !(sorted.last().bounds.y + sorted.last().bounds.h >= w.bounds.y + w.bounds.h) {
        let rest = sorted.drop_last();
        let last = sorted.last();
        inserting_keeps_equals_in_order(rest, w, edge);
        filter_one_more(rest, w, p);
        filter_one_more(with_window(rest, w), last, p);
        filter_one_more(rest, last, p);
        assert(sorted =~= rest.push(last));
    }
}

/// The windows whose lower edge is at a coordinate.
pub open spec fn with_edge(edge: int) -> spec_fn(WindowSnapshot) -> bool {
    |w: WindowSnapshot| w.bounds.y + w.bounds.h == edge
}

proof fn sorting_keeps_equals_in_order(windows: Seq<WindowSnapshot>, edge: int)
    ensures
        lowest_first(windows).filter(with_edge(edge)) == windows.filter(with_edge(edge)),
    decreases windows.len(),
{
    let p = with_edge(edge);
    if windows.len() == 0 {
        assert(lowest_first(windows) =~= windows);
    } else {
        let rest = windows.drop_last();
        sorting_keeps_equals_in_order(rest, edge);
        inserting_keeps_equals_in_order(lowest_first(rest), windows.last(), edge);
        filter_one_more(lowest_first(rest), windows.last(), p);
        filter_one_more(rest, windows.last(), p);
        assert(windows =~= rest.push(windows.last()));
    }
}

/// Sorted windows are the same windows, from the lowest lower edge up; those whose lower
/// edges are level keep their order.
pub proof fn windows_are_sorted_from_the_lowest(
    windows: Vec<WindowSnapshot>,
    r: Vec<WindowSnapshot>,
    edge: int,
)
    requires
        call_ensures(sort_lowest_first, (&windows,), r),
    ensures
        r@.len() == windows@.len(),
        r@.to_multiset() == windows@.to_multiset(),
        forall|i: int, j: int|
            0 <= i < j < r@.len() ==> (#[trigger] r@[i]).bounds.y + r@[i].bounds.h >= (
            #[trigger] r@[j]).bounds.y + r@[j].bounds.h,
        r@.filter(with_edge(edge)) == windows@.filter(with_edge(edge)),
{
    the_lowest_window_comes_first(windows@);
    sorting_keeps_equals_in_order(windows@, edge);
    assert forall|i: int, j: int| 0 <= i < j < r@.len() implies (#[trigger] r@[i]).bounds.y
        + r@[i].bounds.h >= (#[trigger] r@[j]).bounds.y + r@[j].bounds.h by {
        assert(crate::smoketest::windows::lower_edge(lowest_first(windows@)[i])
            >= crate::smoketest::windows::lower_edge(lowest_first(windows@)[j]));
    }
}

/// With two displays or more, the HUD is accepted exactly when it names the focused display,
/// some of its windows are on that display, and none is on another. With fewer there is
/// nothing to check.
pub proof fn the_hud_stands_on_the_focused_display(
    count: usize,
    focused: Option<u32>,
    hud: HudDisplay,
    windows: Vec<WindowSnapshot>,
    r: Result<(), Error>,
)
    requires
        call_ensures(verify_display_alignment, (count, focused, hud, &windows), r),
    ensures
        count < 2 ==> r is Ok,
        count >= 2 && r is Ok ==> {
            &&& focused is Some
            &&& hud == HudDisplay::Named(focused->0)
            &&& exists|k: int|
                0 <= k < windows@.len() && (#[trigger] windows@[k]).display_id == focused
            &&& forall|k: int|
                0 <= k < windows@.len() ==> ((#[trigger] windows@[k]).display_id is None
                    || windows@[k].display_id == focused)
        },
        focused is Some && hud == HudDisplay::Named(focused->0) && (exists|k: int|
            0 <= k < windows@.len() && (#[trigger] windows@[k]).display_id == focused) && (forall|
            k: int,
        |
            0 <= k < windows@.len() ==> ((#[trigger] windows@[k]).display_id is None
                || windows@[k].display_id == focused)) ==> r is Ok,
{
    let ids = display_ids(windows@);
    display_ids_are_listed_once(windows@);
    if focused is Some {
        let a = focused->0;
        if ids == seq![a] {
            assert(ids[0] == a);
            assert(ids.contains(a));
            assert forall|k: int| 0 <= k < windows@.len() implies ((
            #[trigger] windows@[k]).display_id is None || windows@[k].display_id == focused) by {
                if let Some(id) = windows@[k].display_id {
                    assert(ids.contains(id));
                }
            }
        }
        if (exists|k: int| 0 <= k < windows@.len() && (#[trigger] windows@[k]).display_id == focused)
            && (forall|k: int|
            0 <= k < windows@.len() ==> ((#[trigger] windows@[k]).display_id is None
                || windows@[k].display_id == focused)) {
            assert(ids.contains(a));
            assert forall|i: int| 0 <= i < ids.len() implies ids[i] == a by {
                assert(ids.contains(ids[i]));
            }
            let m = choose|m: int| 0 <= m < ids.len() && ids[m] == a;
            if ids.len() > 1 {
                assert(ids[0] < ids[1]);
            }
            assert(ids =~= seq![a]);
        }
    }
}

/// The top of the desktop is the highest edge of any screen.
pub proof fn the_top_is_the_highest_edge(screens: Seq<AppKitScreen>)
    requires
        screens.len() > 0,
    ensures
        forall|i: int|
            0 <= i < screens.len() ==> (#[trigger] screens[i]).frame.y + screens[i].frame.h
                <= global_top(screens),
        exists|i: int|
            0 <= i < screens.len() && (#[trigger] screens[i]).frame.y + screens[i].frame.h
                == global_top(screens),
    decreases screens.len(),
{
    let rest = screens.drop_last();
    let last = screens.len() - 1;
    if rest.len() > 0 {
        the_top_is_the_highest_edge(rest);
        let k = choose|k: int|
            0 <= k < rest.len() && (#[trigger] rest[k]).frame.y + rest[k].frame.h == global_top(rest);
        assert(screens[k] == rest[k]);
        assert forall|i: int| 0 <= i < screens.len() implies (#[trigger] screens[i]).frame.y
            + screens[i].frame.h <= global_top(screens) by {
            if i < last {
                assert(rest[i] == screens[i]);
            }
        }
    }
    assert(screens[last] == screens.last());
}

} // verus!
