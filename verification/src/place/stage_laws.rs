//! Which attempt of a placement follows which.

use vstd::prelude::*;

use crate::geom::{Axis, Rect};
use crate::place::attempt_laws::{close, off_along};
use crate::place::common::DecisionHooks;
use crate::place::engine::{observed, Inputs, Progress, Stage};

verus! {

/// Which rectangle later stages start from: the last one seen, except that a nudge counts
/// only where it brought the origin in place, and that anchoring a resized window leaves
/// what was seen before.
pub proof fn the_last_useful_sight_counts<H: DecisionHooks>(
    inputs: Inputs<H>,
    p: Progress,
    got: Rect,
    took: u64,
)
    ensures
        ({
            let q = observed(inputs, p, got, took);
            let at_origin = -inputs.eps <= got.x - inputs.target.x <= inputs.eps && -inputs.eps
                <= got.y - inputs.target.y <= inputs.eps;
            &&& p.stage is Primary || p.stage is Opposite || p.stage is SizeOnly ==> q.got == got
            &&& p.stage is Nudge && !close(got, inputs.target, inputs.eps) && at_origin ==> q.got
                == got
            &&& p.stage is Nudge && !at_origin ==> q.got == p.got && q.vf == p.vf
            &&& p.stage is AnchorResized ==> q.got == p.got
            &&& p.stage is Opposite ==> (q.retry_verified <==> close(
                got,
                inputs.target,
                inputs.eps,
            ))
            &&& p.stage is SizeOnly && p.anchors_left > 0 ==> q.anchors_left == p.anchors_left - 1
            &&& !(p.stage is SizeOnly) ==> q.anchors_left == p.anchors_left
        }),
{
}

/// What follows a sight. A window in place at the first attempt is done with unless a
/// second is forced. One that is off along one axis is nudged along it while that is
/// allowed. After the opposite order, a window in place is done with; one whose origin
/// alone is in place has its size changed where it can be; any other is anchored while
/// anchors are left. A resized window is anchored while anchors are left, and an anchored
/// one that is in place is done with. Only a fallback that is asked for comes in between.
pub proof fn each_sight_leads_to_its_stage<H: DecisionHooks>(
    inputs: Inputs<H>,
    p: Progress,
    got: Rect,
    took: u64,
)
    ensures
        ({
            let q = observed(inputs, p, got, took);
            let eps = inputs.eps;
            let t = inputs.target;
            let in_place = close(got, t, eps);
            let at_origin = -eps <= got.x - t.x <= eps && -eps <= got.y - t.y <= eps;
            let done = q.stage is Finished && q.stage->Finished_0 is Verified;
            &&& p.stage is Primary && in_place && !inputs.force ==> done
            &&& p.stage is Primary && !(in_place && !inputs.force) && inputs.pos_first_only
                ==> q.stage is Finished && !done
            &&& p.stage is Primary && !(in_place && !inputs.force) && !inputs.pos_first_only
                && inputs.limits.max_axis_nudges > 0 && off_along(got, t, eps, Axis::Horizontal)
                ==> q.stage == Stage::Nudge(Axis::Horizontal)
            &&& p.stage is Primary && !(in_place && !inputs.force) && !inputs.pos_first_only
                && inputs.limits.max_axis_nudges > 0 && off_along(got, t, eps, Axis::Vertical)
                ==> q.stage == Stage::Nudge(Axis::Vertical)
            &&& p.stage is Nudge && in_place ==> done
            &&& p.stage is Opposite && !(q.stage is ForcedFallback) && in_place ==> done
            &&& p.stage is Opposite && !(q.stage is ForcedFallback) && !in_place && at_origin
                && inputs.can_size != Some(false) ==> q.stage is SizeOnly
            &&& p.stage is Opposite && !(q.stage is ForcedFallback) && !in_place && !(at_origin
                && inputs.can_size != Some(false)) && p.anchors_left > 0 ==> q.stage is AnchorLegal
            &&& p.stage is SizeOnly && p.anchors_left > 0 ==> q.stage is AnchorResized
            &&& p.stage is SizeOnly && p.anchors_left == 0 && in_place ==> done
            &&& p.stage is AnchorResized && !done && p.anchors_left > 0 ==> q.stage is AnchorLegal
            &&& p.stage is AnchorLegal && !done ==> q.stage is LastFallback
                || q.stage is Finished
            &&& (p.stage is ForcedFallback || p.stage is LastFallback) ==> (done <==> in_place)
        }),
{
}

/// An anchored window is done with exactly when it was seen within the tolerance of the
/// place that it was anchored at.
pub proof fn anchored_windows_are_held_to_their_anchor<H: DecisionHooks>(
    inputs: Inputs<H>,
    p: Progress,
    got: Rect,
    took: u64,
)
    requires
        p.stage is AnchorResized || p.stage is AnchorLegal,
    ensures
        ({
            let q = observed(inputs, p, got, took);
            q.stage is Finished && q.stage->Finished_0 is Verified <==> close(
                got,
                inputs.anchored(p.got),
                inputs.eps,
            )
        }),
{
}

} // verus!
