//! What comparing observed frames is good for.

use vstd::prelude::*;

use crate::geom::{Point, Rect};
use crate::smoketest::error::Error;
use crate::smoketest::frames::{
    assert_frame_matches, default_wait_config, delta_is_zero, frame_actual_and_scale,
    frame_within_eps, rect_matches, Frames, RectDelta, RectPx, WaitConfig,
};

verus! {

/// No whole pixel is nearer to a side than the one it is put on, and a side on a
/// whole pixel stays there.
pub proof fn pixels_are_the_nearest(rect: Rect, r: RectPx)
    requires
        call_ensures(RectPx::from_ax, (&rect,), r),
        -2_000_000_000_000 <= rect.x <= 2_000_000_000_000,
        -2_000_000_000_000 <= rect.y <= 2_000_000_000_000,
        -2_000_000_000_000 <= rect.w <= 2_000_000_000_000,
        -2_000_000_000_000 <= rect.h <= 2_000_000_000_000,
    ensures
        -512 <= 1024 * r.x - rect.x <= 512,
        -512 <= 1024 * r.y - rect.y <= 512,
        -512 <= 1024 * r.w - rect.w <= 512,
        -512 <= 1024 * r.h - rect.h <= 512,
        forall|n: i32| rect.x == #[trigger] (1024 * n) ==> r.x == n,
        forall|n: i32| rect.y == #[trigger] (1024 * n) ==> r.y == n,
        forall|n: i32| rect.w == #[trigger] (1024 * n) ==> r.w == n,
        forall|n: i32| rect.h == #[trigger] (1024 * n) ==> r.h == n,
{
}

/// Halfway between two pixels the one farther from zero is taken, so that a mirrored
/// rectangle is put on the mirrored pixels.
pub proof fn halves_go_away_from_zero(rect: Rect, r: RectPx, n: i32)
    requires
        call_ensures(RectPx::from_ax, (&rect,), r),
        -1_000_000_000 <= n <= 1_000_000_000,
    ensures
        n >= 0 && rect.x == 1024 * n + 512 ==> r.x == n + 1,
        n <= 0 && rect.x == 1024 * n - 512 ==> r.x == n - 1,
{
}

/// Sides that no pixel can number stop at the last pixel there is.
pub proof fn pixels_stop_at_the_last(rect: Rect, r: RectPx)
    requires
        call_ensures(RectPx::from_ax, (&rect,), r),
    ensures
        rect.x >= 1024 * i32::MAX ==> r.x == i32::MAX,
        rect.x <= 1024 * i32::MIN ==> r.x == i32::MIN,
        rect.w >= 1024 * i32::MAX ==> r.w == i32::MAX,
        rect.w <= 1024 * i32::MIN ==> r.w == i32::MIN,
{
}

/// A delta added to a frame gives the frame it was taken to, and the delta back is
/// its opposite.
pub proof fn deltas_lead_there_and_back(a: RectPx, b: RectPx, there: RectDelta, back: RectDelta)
    requires
        call_ensures(RectPx::delta, (&a, &b), there),
        call_ensures(RectPx::delta, (&b, &a), back),
    ensures
        a.x + there.dx == b.x,
        a.y + there.dy == b.y,
        a.w + there.dw == b.w,
        a.h + there.dh == b.h,
        there.dx + back.dx == 0,
        there.dy + back.dy == 0,
        there.dw + back.dw == 0,
        there.dh + back.dh == 0,
{
}

/// A delta is zero exactly between equal frames.
pub proof fn equal_frames_differ_by_nothing(a: RectPx, b: RectPx, delta: RectDelta, zero: bool)
    requires
        call_ensures(RectPx::delta, (&a, &b), delta),
        call_ensures(delta_is_zero, (&delta,), zero),
    ensures
        zero <==> a == b,
{
}

/// A delta is within a tolerance exactly when none of its parts exceeds it in either
/// direction.
pub proof fn a_tolerance_bounds_every_part(delta: RectDelta, eps: i32, r: bool)
    requires
        call_ensures(frame_within_eps, (&delta, eps), r),
    ensures
        r <==> (delta.dx <= eps && delta.dx >= -eps && delta.dy <= eps && delta.dy >= -eps
            && delta.dw <= eps && delta.dw >= -eps && delta.dh <= eps && delta.dh >= -eps),
{
}

/// Matching is mutual, every frame matches itself, and a wider tolerance loses no
/// match.
pub proof fn matching_is_mutual(
    a: RectPx,
    b: RectPx,
    eps: i32,
    wider: i32,
    one: bool,
    other: bool,
    loose: bool,
    itself: bool,
)
    requires
        call_ensures(rect_matches, (a, b, eps), one),
        call_ensures(rect_matches, (b, a, eps), other),
        call_ensures(rect_matches, (a, b, wider), loose),
        call_ensures(rect_matches, (a, a, eps), itself),
        0 <= eps <= wider,
    ensures
        one == other,
        one ==> loose,
        itself,
        one <==> (a.x - b.x <= eps && b.x - a.x <= eps && a.y - b.y <= eps && b.y - a.y <= eps
            && a.w - b.w <= eps && b.w - a.w <= eps && a.h - b.h <= eps && b.h - a.h <= eps),
{
}

/// A frame passes exactly when each side of the frame that counts is at most the
/// tolerance away; what the raw frames say does not matter.
pub proof fn only_the_frame_that_counts_is_judged(
    case: &str,
    expected: RectPx,
    frames: Frames,
    eps: i32,
    r: Result<(), Error>,
)
    requires
        call_ensures(assert_frame_matches, (case, expected, &frames, eps), r),
    ensures
        r is Ok <==> ({
            let got = frames.authoritative;
            &&& got.x - expected.x <= eps && expected.x - got.x <= eps
            &&& got.y - expected.y <= eps && expected.y - got.y <= eps
            &&& got.w - expected.w <= eps && expected.w - got.w <= eps
            &&& got.h - expected.h <= eps && expected.h - got.h <= eps
        }),
        r is Err ==> r->Err_0 is InvalidState,
{
}

/// The middle of a frame is as far from either side, up to the pixel that a half
/// leaves.
pub proof fn the_middle_is_in_the_middle(frame: RectPx, r: Point)
    requires
        call_ensures(RectPx::center, (&frame,), r),
        frame.w >= 0,
        frame.h >= 0,
    ensures
        r.x % 1024 == 0,
        r.y % 1024 == 0,
        1024 * frame.x <= r.x <= 1024 * (frame.x + frame.w),
        1024 * frame.y <= r.y <= 1024 * (frame.y + frame.h),
        0 <= (1024 * (frame.x + frame.w) - r.x) - (r.x - 1024 * frame.x) <= 1024,
        0 <= (1024 * (frame.y + frame.h) - r.y) - (r.y - 1024 * frame.y) <= 1024,
{
}

/// A wait lasts as long as it may, never pauses for less than five milliseconds, and
/// pauses as asked where that is longer.
pub proof fn waits_pause_long_enough(timeout_ms: u64, poll_ms: u64, r: WaitConfig)
    requires
        call_ensures(default_wait_config, (timeout_ms, poll_ms), r),
    ensures
        r.overall_ms == timeout_ms,
        r.idle_ms >= 5,
        r.idle_ms >= poll_ms,
        r.idle_ms == 5 || r.idle_ms == poll_ms,
        r.max_events == 512,
{
}

/// What is reported of a window is what was seen of it.
pub proof fn what_was_seen_is_reported(frames: Option<Frames>, r: (Option<RectPx>, u32))
    requires
        call_ensures(frame_actual_and_scale, (frames,), r),
    ensures
        r.0 is Some <==> frames is Some,
        frames is Some ==> r.0 == Some(frames->Some_0.authoritative) && r.1
            == frames->Some_0.scale_centi,
        frames is None ==> r.1 == 100,
{
}

} // verus!
