//! Rectangles and points in fixed-point screen coordinates.
//!
//! A coordinate is a whole number of units, [`UNITS_PER_POINT`] of them to one
//! screen point. Edges are compared exactly: sums are taken in a wider integer,
//! so no comparison depends on rounding.

use vstd::prelude::*;

verus! {

/// Number of coordinate units in one screen point.
pub const UNITS_PER_POINT: i64 = 1024;

/// Largest magnitude of a coordinate from which new rectangles are derived.
pub const COORD_LIMIT: i64 = 0x1000_0000_0000_0000;

/// The distance between two coordinates.
pub open spec fn distance(a: int, b: int) -> int {
    if a >= b {
        a - b
    } else {
        b - a
    }
}

/// Whether two coordinates lie within `eps` of each other.
pub open spec fn near(a: int, b: int, eps: int) -> bool {
    distance(a, b) <= eps
}

/// The larger of two integers.
pub open spec fn max_int(a: int, b: int) -> int {
    if a >= b {
        a
    } else {
        b
    }
}

/// The smaller of two integers.
pub open spec fn min_int(a: int, b: int) -> int {
    if a <= b {
        a
    } else {
        b
    }
}

/// Whether `a` and `b` lie within `eps` of each other.
pub fn approx_eq(a: i64, b: i64, eps: i64) -> (r: bool)
    ensures
        r == near(a as int, b as int, eps as int),
{
    approx_eq_wide(a as i128, b as i128, eps)
}

/// [`approx_eq`] on edges, which may lie outside the range of one coordinate.
fn approx_eq_wide(a: i128, b: i128, eps: i64) -> (r: bool)
    requires
        -0x1_0000_0000_0000_0000 <= a <= 0x1_0000_0000_0000_0000,
        -0x1_0000_0000_0000_0000 <= b <= 0x1_0000_0000_0000_0000,
    ensures
        r == near(a as int, b as int, eps as int),
{
    let e: i128 = eps as i128;
    if a >= b {
        a - b <= e
    } else {
        b - a <= e
    }
}

/// The direction in which a window is out of place.
#[derive(Debug, Clone, Copy, PartialEq, Eq, Structural)]
pub enum Axis {
    /// Left to right.
    Horizontal,
    /// Bottom to top.
    Vertical,
}

/// A position on the global desktop.
#[derive(Debug, Clone, Copy, PartialEq, Eq, Structural)]
pub struct Point {
    /// Horizontal coordinate.
    pub x: i64,
    /// Vertical coordinate.
    pub y: i64,
}

impl Point {
    /// The point at whole-point coordinates.
    pub fn from_points(x: i32, y: i32) -> (r: Point)
        ensures
            r.x == x * UNITS_PER_POINT,
            r.y == y * UNITS_PER_POINT,
    {
        Point { x: x as i64 * UNITS_PER_POINT, y: y as i64 * UNITS_PER_POINT }
    }
}

/// The extent of a window.
#[derive(Debug, Clone, Copy, PartialEq, Eq, Structural)]
pub struct Size {
    /// Horizontal extent.
    pub width: i64,
    /// Vertical extent.
    pub height: i64,
}

/// An axis-aligned rectangle: its origin and its extent.
#[derive(Debug, Clone, Copy, PartialEq, Eq, Structural)]
pub struct Rect {
    /// Left edge.
    pub x: i64,
    /// Bottom edge.
    pub y: i64,
    /// Width.
    pub w: i64,
    /// Height.
    pub h: i64,
}

/// Component-wise distances between two rectangles.
#[derive(Debug, Clone, Copy, PartialEq, Eq, Structural)]
pub struct Diffs {
    /// Distance between the left edges.
    pub x: u64,
    /// Distance between the bottom edges.
    pub y: u64,
    /// Difference in width.
    pub w: u64,
    /// Difference in height.
    pub h: u64,
}

impl Diffs {
    /// Whether the origins agree within `eps`.
    pub open spec fn origin_within(self, eps: int) -> bool {
        self.x <= eps && self.y <= eps
    }

    /// Whether the extents agree within `eps`.
    pub open spec fn size_within(self, eps: int) -> bool {
        self.w <= eps && self.h <= eps
    }

    /// Whether the origins agree within `eps`.
    pub fn origin_ok(&self, eps: i64) -> (r: bool)
        ensures
            r == self.origin_within(eps as int),
    {
        self.x as i128 <= eps as i128 && self.y as i128 <= eps as i128
    }

    /// Whether the extents agree within `eps`.
    pub fn size_ok(&self, eps: i64) -> (r: bool)
        ensures
            r == self.size_within(eps as int),
    {
        self.w as i128 <= eps as i128 && self.h as i128 <= eps as i128
    }
}

/// The distances between the components of `a` and `b`.
pub open spec fn diffs_spec(a: Rect, b: Rect) -> Diffs {
    Diffs {
        x: distance(a.x as int, b.x as int) as u64,
        y: distance(a.y as int, b.y as int) as u64,
        w: distance(a.w as int, b.w as int) as u64,
        h: distance(a.h as int, b.h as int) as u64,
    }
}

/// The distance between two coordinates, which always fits in an unsigned one.
fn coord_distance(a: i64, b: i64) -> (r: u64)
    ensures
        r == distance(a as int, b as int),
{
    let (p, q): (i128, i128) = (a as i128, b as i128);
    if p >= q {
        (p - q) as u64
    } else {
        (q - p) as u64
    }
}

impl Rect {
    /// Whether every component of `self` lies within `eps` of that of `other`.
    pub open spec fn matches(self, other: Rect, eps: int) -> bool {
        &&& near(self.x as int, other.x as int, eps)
        &&& near(self.y as int, other.y as int, eps)
        &&& near(self.w as int, other.w as int, eps)
        &&& near(self.h as int, other.h as int, eps)
    }

    /// Right edge.
    pub open spec fn right_edge(self) -> int {
        self.x + self.w
    }

    /// Top edge.
    pub open spec fn top_edge(self) -> int {
        self.y + self.h
    }

    /// Whether the extent is small enough to derive rectangles from.
    pub open spec fn sized(self) -> bool {
        &&& -COORD_LIMIT <= self.w <= COORD_LIMIT
        &&& -COORD_LIMIT <= self.h <= COORD_LIMIT
    }

    /// Whether origin and extent are small enough to derive rectangles from.
    pub open spec fn bounded(self) -> bool {
        &&& self.sized()
        &&& -COORD_LIMIT <= self.x <= COORD_LIMIT
        &&& -COORD_LIMIT <= self.y <= COORD_LIMIT
    }

    /// Whether the point lies in the rectangle, its edges included.
    pub open spec fn covers(self, p: Point) -> bool {
        &&& self.x <= p.x <= self.right_edge()
        &&& self.y <= p.y <= self.top_edge()
    }

    /// Whether `other` lies inside `self`, shared edges allowed.
    pub open spec fn encloses(self, other: Rect) -> bool {
        &&& self.x <= other.x
        &&& self.y <= other.y
        &&& other.right_edge() <= self.right_edge()
        &&& other.top_edge() <= self.top_edge()
    }

    /// A rectangle from its origin and extent.
    pub fn new(x: i64, y: i64, w: i64, h: i64) -> (r: Rect)
        ensures
            r == (Rect { x, y, w, h }),
    {
        Rect { x, y, w, h }
    }

    /// The rectangle at whole-point coordinates.
    pub fn from_points(x: i32, y: i32, w: i32, h: i32) -> (r: Rect)
        ensures
            r.x == x * UNITS_PER_POINT,
            r.y == y * UNITS_PER_POINT,
            r.w == w * UNITS_PER_POINT,
            r.h == h * UNITS_PER_POINT,
            r.bounded(),
    {
        Rect {
            x: x as i64 * UNITS_PER_POINT,
            y: y as i64 * UNITS_PER_POINT,
            w: w as i64 * UNITS_PER_POINT,
            h: h as i64 * UNITS_PER_POINT,
        }
    }

    /// Left edge.
    pub fn left(&self) -> (r: i128)
        ensures
            r == self.x,
    {
        self.x as i128
    }

    /// Right edge.
    pub fn right(&self) -> (r: i128)
        ensures
            r == self.right_edge(),
    {
        self.x as i128 + self.w as i128
    }

    /// Bottom edge.
    pub fn bottom(&self) -> (r: i128)
        ensures
            r == self.y,
    {
        self.y as i128
    }

    /// Top edge.
    pub fn top(&self) -> (r: i128)
        ensures
            r == self.top_edge(),
    {
        self.y as i128 + self.h as i128
    }

    /// Whether the rectangle is small enough to derive others from.
    pub fn is_bounded(&self) -> (r: bool)
        ensures
            r == self.bounded(),
    {
        -COORD_LIMIT <= self.w && self.w <= COORD_LIMIT && -COORD_LIMIT <= self.h && self.h
            <= COORD_LIMIT && -COORD_LIMIT <= self.x && self.x <= COORD_LIMIT && -COORD_LIMIT
            <= self.y && self.y <= COORD_LIMIT
    }

    /// Whether every component lies within `eps` of that of `other`.
    pub fn approx_eq(&self, other: &Rect, eps: i64) -> (r: bool)
        ensures
            r == self.matches(*other, eps as int),
    {
        approx_eq(self.x, other.x, eps) && approx_eq(self.y, other.y, eps) && approx_eq(
            self.w,
            other.w,
            eps,
        ) && approx_eq(self.h, other.h, eps)
    }

    /// Component-wise distances to `other`.
    pub fn diffs(&self, other: &Rect) -> (r: Diffs)
        ensures
            r == diffs_spec(*self, *other),
            r.x == distance(self.x as int, other.x as int),
            r.y == distance(self.y as int, other.y as int),
            r.w == distance(self.w as int, other.w as int),
            r.h == distance(self.h as int, other.h as int),
    {
        Diffs {
            x: coord_distance(self.x, other.x),
            y: coord_distance(self.y, other.y),
            w: coord_distance(self.w, other.w),
            h: coord_distance(self.h, other.h),
        }
    }

    /// Whether the point lies in the rectangle, its edges included.
    pub fn contains(&self, p: Point) -> (r: bool)
        ensures
            r == self.covers(p),
    {
        self.left() <= p.x as i128 && p.x as i128 <= self.right() && self.bottom() <= p.y as i128
            && p.y as i128 <= self.top()
    }

    /// The point halfway between the edges, rounded down to a whole unit and
    /// held inside the coordinate range.
    pub open spec fn center_spec(self) -> Point {
        Point {
            x: clamp_coord(self.x + (self.w as int) / 2) as i64,
            y: clamp_coord(self.y + (self.h as int) / 2) as i64,
        }
    }

    /// The point halfway between the edges.
    pub fn center(&self) -> (r: Point)
        ensures
            r == self.center_spec(),
    {
        Point { x: midpoint(self.x, self.w), y: midpoint(self.y, self.h) }
    }
}

/// The coordinate nearest to `v`.
pub open spec fn clamp_coord(v: int) -> int {
    if v > i64::MAX {
        i64::MAX as int
    } else if v < i64::MIN {
        i64::MIN as int
    } else {
        v
    }
}

/// Half of `extent`, rounded down, past `origin`.
fn midpoint(origin: i64, extent: i64) -> (r: i64)
    ensures
        r == clamp_coord(origin + (extent as int) / 2),
{
    let half: i64 = if extent >= 0 {
        extent / 2
    } else if extent == i64::MIN {
        -0x4000_0000_0000_0000
    } else {
        let up: i64 = -extent;
        -(up / 2 + up % 2)
    };
    assert(half == (extent as int) / 2);
    let sum: i128 = origin as i128 + half as i128;
    if sum > i64::MAX as i128 {
        i64::MAX
    } else if sum < i64::MIN as i128 {
        i64::MIN
    } else {
        sum as i64
    }
}

/// Whether exactly one axis of a placement is off, and which.
pub open spec fn one_axis_off_spec(d: Diffs, eps: int) -> Option<Axis> {
    let x_ok = d.x <= eps && d.w <= eps;
    let y_ok = d.y <= eps && d.h <= eps;
    if x_ok && !y_ok {
        Some(Axis::Vertical)
    } else if y_ok && !x_ok {
        Some(Axis::Horizontal)
    } else {
        None
    }
}

/// Name the axis that is off by more than `eps` when the other one is not.
pub fn one_axis_off(d: Diffs, eps: i64) -> (r: Option<Axis>)
    ensures
        r == one_axis_off_spec(d, eps as int),
{
    let e: i128 = eps as i128;
    let x_ok = d.x as i128 <= e && d.w as i128 <= e;
    let y_ok = d.y as i128 <= e && d.h as i128 <= e;
    if x_ok && !y_ok {
        Some(Axis::Vertical)
    } else if y_ok && !x_ok {
        Some(Axis::Horizontal)
    } else {
        None
    }
}

/// Edges of a window that coincide with the visible frame.
#[derive(Debug, Clone, Copy, PartialEq, Eq, Structural)]
pub struct ClampFlags {
    /// The left edges coincide.
    pub left: bool,
    /// The right edges coincide.
    pub right: bool,
    /// The bottom edges coincide.
    pub bottom: bool,
    /// The top edges coincide.
    pub top: bool,
}

/// The edges on which `got` and `vf` agree within `eps`.
pub open spec fn clamp_flags_spec(got: Rect, vf: Rect, eps: int) -> ClampFlags {
    ClampFlags {
        left: near(got.x as int, vf.x as int, eps),
        right: near(got.right_edge(), vf.right_edge(), eps),
        bottom: near(got.y as int, vf.y as int, eps),
        top: near(got.top_edge(), vf.top_edge(), eps),
    }
}

/// The edges on which `got` and `vf` agree within `eps`.
pub fn clamp_flags(got: &Rect, vf: &Rect, eps: i64) -> (r: ClampFlags)
    ensures
        r == clamp_flags_spec(*got, *vf, eps as int),
{
    ClampFlags {
        left: approx_eq_wide(got.left(), vf.left(), eps),
        right: approx_eq_wide(got.right(), vf.right(), eps),
        bottom: approx_eq_wide(got.bottom(), vf.bottom(), eps),
        top: approx_eq_wide(got.top(), vf.top(), eps),
    }
}

impl ClampFlags {
    /// Whether some edge coincides.
    pub fn any(&self) -> (r: bool)
        ensures
            r == (self.left || self.right || self.bottom || self.top),
    {
        self.left || self.right || self.bottom || self.top
    }
}

/// Two rectangles match exactly when their distances are all within `eps`.
pub proof fn matches_iff_diffs_within(a: Rect, b: Rect, eps: int)
    ensures
        a.matches(b, eps) <==> diffs_spec(a, b).origin_within(eps) && diffs_spec(a, b).size_within(
            eps,
        ),
        a.matches(b, eps) ==> one_axis_off_spec(diffs_spec(a, b), eps) is None,
{
}

/// Matching is symmetric, and a rectangle matches itself within any tolerance
/// that is not negative.
pub proof fn matches_is_symmetric(a: Rect, b: Rect, eps: int)
    ensures
        a.matches(b, eps) == b.matches(a, eps),
        0 <= eps ==> a.matches(a, eps),
{
}

/// A rectangle that matches the visible frame is clamped on every edge within
/// twice the tolerance.
pub proof fn matching_frame_clamps_every_edge(got: Rect, vf: Rect, eps: int)
    requires
        got.matches(vf, eps),
    ensures
        clamp_flags_spec(got, vf, 2 * eps) == (ClampFlags {
            left: true,
            right: true,
            bottom: true,
            top: true,
        }),
{
}

} // verus!
