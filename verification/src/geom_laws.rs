//! What comparing and measuring rectangles means, edge by edge.

use vstd::prelude::*;

use crate::geom::{
    approx_eq, clamp_flags, one_axis_off, Axis, ClampFlags, Diffs, Point, Rect, UNITS_PER_POINT,
};
use crate::screen::{globalize_rect, Screen, ScreenLayout};

verus! {

/// Two rectangles are close when no component of one is further from that of the other
/// than the tolerance, in either direction.
pub proof fn close_rectangles_agree_in_every_component(a: Rect, b: Rect, eps: i64, r: bool)
    requires
        call_ensures(Rect::approx_eq, (&a, &b, eps), r),
    ensures
        r <==> {
            &&& -eps <= a.x - b.x <= eps
            &&& -eps <= a.y - b.y <= eps
            &&& -eps <= a.w - b.w <= eps
            &&& -eps <= a.h - b.h <= eps
        },
{
}

/// Two coordinates are close when they are no further apart than the tolerance.
pub proof fn close_coordinates_are_not_far_apart(a: i64, b: i64, eps: i64, r: bool)
    requires
        call_ensures(approx_eq, (a, b, eps), r),
    ensures
        r <==> -eps <= a - b <= eps,
{
}

/// A distance is how far one component has to go to reach the other.
pub proof fn distances_lead_from_one_to_the_other(a: Rect, b: Rect, d: Diffs)
    requires
        call_ensures(Rect::diffs, (&a, &b), d),
    ensures
        a.x + d.x == b.x || b.x + d.x == a.x,
        a.y + d.y == b.y || b.y + d.y == a.y,
        a.w + d.w == b.w || b.w + d.w == a.w,
        a.h + d.h == b.h || b.h + d.h == a.h,
{
}

/// Distances are within the tolerance when the larger of the two is.
pub proof fn distances_are_judged_together(d: Diffs, eps: i64, origin: bool, size: bool)
    requires
        call_ensures(Diffs::origin_ok, (&d, eps), origin),
        call_ensures(Diffs::size_ok, (&d, eps), size),
    ensures
        origin <==> !(d.x > eps || d.y > eps),
        size <==> !(d.w > eps || d.h > eps),
{
}

/// A point is in a rectangle unless it lies left of, right of, below or above it.
pub proof fn points_outside_lie_beyond_an_edge(a: Rect, p: Point, r: bool)
    requires
        call_ensures(Rect::contains, (&a, p), r),
    ensures
        !r <==> p.x < a.x || p.x > a.x + a.w || p.y < a.y || p.y > a.y + a.h,
{
}

/// The edges of a rectangle lie its extent apart.
pub proof fn edges_lie_an_extent_apart(a: Rect, left: i128, right: i128, bottom: i128, top: i128)
    requires
        call_ensures(Rect::left, (&a,), left),
        call_ensures(Rect::right, (&a,), right),
        call_ensures(Rect::bottom, (&a,), bottom),
        call_ensures(Rect::top, (&a,), top),
    ensures
        left == a.x,
        bottom == a.y,
        right - left == a.w,
        top - bottom == a.h,
{
}

/// The centre is as far from the left edge as from the right one, and as far from the
/// bottom as from the top, up to one unit.
pub proof fn the_centre_lies_halfway(a: Rect, c: Point)
    requires
        call_ensures(Rect::center, (&a,), c),
        a.bounded(),
    ensures
        0 <= (a.x + a.w - c.x) - (c.x - a.x) <= 1,
        0 <= (a.y + a.h - c.y) - (c.y - a.y) <= 1,
{
}

/// An axis is named exactly when something on it is off and nothing on the other is.
pub proof fn the_axis_named_is_the_one_that_is_off(d: Diffs, eps: i64, r: Option<Axis>)
    requires
        call_ensures(one_axis_off, (d, eps), r),
    ensures
        r == Some(Axis::Horizontal) <==> (d.x > eps || d.w > eps) && d.y <= eps && d.h <= eps,
        r == Some(Axis::Vertical) <==> (d.y > eps || d.h > eps) && d.x <= eps && d.w <= eps,
{
}

/// A flag is set when the two edges on that side are no further apart than the
/// tolerance.
pub proof fn flags_name_the_edges_that_meet(got: Rect, vf: Rect, eps: i64, f: ClampFlags)
    requires
        call_ensures(clamp_flags, (&got, &vf, eps), f),
    ensures
        f.left <==> -eps <= got.x - vf.x <= eps,
        f.bottom <==> -eps <= got.y - vf.y <= eps,
        f.right <==> -eps <= (got.x + got.w) - (vf.x + vf.w) <= eps,
        f.top <==> -eps <= (got.y + got.h) - (vf.y + vf.h) <= eps,
{
}

/// Rectangles and points at whole-point coordinates are that many points from zero.
pub proof fn whole_points_are_scaled(x: i32, y: i32, w: i32, h: i32, r: Rect, p: Point)
    requires
        call_ensures(Rect::from_points, (x, y, w, h), r),
        call_ensures(Point::from_points, (x, y), p),
    ensures
        r.x == 1024 * x && r.y == 1024 * y && r.w == 1024 * w && r.h == 1024 * h,
        p.x == r.x && p.y == r.y,
        UNITS_PER_POINT == 1024,
{
}

/// Whether a point lies between the edges of a screen's visible frame, edges included.
pub open spec fn on_screen(s: Screen, p: Point) -> bool {
    s.visible.x <= p.x && p.x <= s.visible.x + s.visible.w && s.visible.y <= p.y && p.y
        <= s.visible.y + s.visible.h
}

/// A point on some screen belongs to the first screen that it lies on; another one to the
/// main screen, or to the first one where there is no main screen.
pub proof fn points_belong_to_the_screen_they_lie_on(
    layout: ScreenLayout,
    p: Point,
    r: Option<Screen>,
)
    requires
        call_ensures(ScreenLayout::screen_at, (&layout, p), r),
    ensures
        forall|i: int|
            0 <= i < layout.screens@.len() && on_screen(#[trigger] layout.screens@[i], p) && (
            forall|j: int| 0 <= j < i ==> !on_screen(#[trigger] layout.screens@[j], p)) ==> r
                == Some(layout.screens@[i]),
        (forall|i: int| 0 <= i < layout.screens@.len() ==> !on_screen(#[trigger] layout.screens@[i], p))
            ==> {
            &&& layout.main is Some ==> r == layout.main
            &&& layout.main is None && layout.screens@.len() > 0 ==> r == Some(layout.screens@[0])
            &&& layout.main is None && layout.screens@.len() == 0 ==> r is None
        },
{
    crate::screen::first_covering_covers(layout.screens@, p);
    let found = crate::screen::first_covering(layout.screens@, p);
    assert forall|i: int| 0 <= i < layout.screens@.len() implies (
    #[trigger] layout.screens@[i]).visible.covers(p) == on_screen(layout.screens@[i], p) by {}
    assert forall|i: int|
        0 <= i < layout.screens@.len() && on_screen(#[trigger] layout.screens@[i], p) && (forall|
            j: int,
        |
            0 <= j < i ==> !on_screen(#[trigger] layout.screens@[j], p)) implies r == Some(
        layout.screens@[i],
    ) by {
        assert(found is Some);
        assert(on_screen(layout.screens@[found->0], p));
        if found->0 < i {
            assert(!on_screen(layout.screens@[found->0], p));
        } else if i < found->0 {
            assert(layout.screens@[i].visible.covers(p));
        }
    }
    if found is Some {
        assert(on_screen(layout.screens@[found->0], p));
    }
}

/// Frame and scale that are resolved for a point are those of the screen that it belongs
/// to.
pub proof fn frame_and_scale_are_those_of_the_screen(
    layout: ScreenLayout,
    p: Point,
    s: Option<Screen>,
    frame: Rect,
    scale: u32,
)
    requires
        call_ensures(ScreenLayout::screen_at, (&layout, p), s),
        call_ensures(ScreenLayout::visible_frame_containing_point, (&layout, p), frame),
        call_ensures(ScreenLayout::scale_factor_containing_point, (&layout, p), scale),
    ensures
        s matches Some(screen) ==> frame == screen.visible && scale == screen.scale_milli,
        s is None ==> frame.x == 0 && frame.y == 0 && frame.w == 0 && frame.h == 0 && scale == 1000,
{
}

/// Two rectangles that are relative to the same origin keep their distance and their
/// extents when they are moved by it.
pub proof fn moving_to_the_desktop_keeps_distances(a: Rect, b: Rect, x: i64, y: i64, c: Rect, d: Rect)
    requires
        call_ensures(globalize_rect, (a, x, y), c),
        call_ensures(globalize_rect, (b, x, y), d),
    ensures
        c.x - d.x == a.x - b.x && c.y - d.y == a.y - b.y,
        c.w == a.w && c.h == a.h,
        a.x == 0 && a.y == 0 ==> c.x == x && c.y == y,
{
}

} // verus!
