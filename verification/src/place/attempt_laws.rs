//! What each attempt of a placement asks for, and what becomes of its answer.

use vstd::prelude::*;

use crate::error::Error;
use crate::geom::{diffs_spec, Axis, ClampFlags, Diffs, Rect};
use crate::place::adapter::{AxEvent, PlaceCall};
use crate::place::common::{AttemptRecord, DecisionHooks, FallbackTrigger, PlacementContext};
use crate::place::engine::{
    advanced, exchanges, fell_short, follows_strategy, inputs_of, progress_after, ran, reply_of,
    request, Inputs, PlacementEngineConfig, PlacementGrid, PlacementOutcome, PlacementSuccess,
    Progress, Stage, Verdict,
};
use crate::place::engine_laws::{made, requests_follow_from_the_answers};
use crate::place::metrics::{
    wrapped_sum, AttemptKind, AttemptSnapshot, PlacementCountersSnapshot,
};

verus! {

/// An anchored rectangle has the size that the window has taken, of at least one point.
/// In the last column of a grid with more than one column its right edge is the target's,
/// in the last row of a grid with more than one row its top edge is; elsewhere it starts
/// where the target does. So it lies inside a target that it is not larger than.
pub proof fn anchors_keep_the_outer_edges<H>(inputs: Inputs<H>, seen: Rect)
    ensures
        ({
            let a = inputs.anchored(seen);
            let t = inputs.target;
            let g = inputs.grid;
            let last_col = g.cols > 1 && g.col + 1 == g.cols;
            let last_row = g.rows > 1 && g.row + 1 == g.rows;
            &&& seen.w >= 1024 ==> a.w == seen.w
            &&& seen.w < 1024 ==> a.w == 1024
            &&& seen.h >= 1024 ==> a.h == seen.h
            &&& seen.h < 1024 ==> a.h == 1024
            &&& last_col && i64::MIN <= t.x + t.w - a.w <= i64::MAX ==> a.x + a.w == t.x + t.w
            &&& !last_col ==> a.x == t.x
            &&& last_row && i64::MIN <= t.y + t.h - a.h <= i64::MAX ==> a.y + a.h == t.y + t.h
            &&& !last_row ==> a.y == t.y
            &&& t.bounded() && a.w <= t.w && a.h <= t.h ==> {
                &&& t.x <= a.x
                &&& a.x + a.w <= t.x + t.w
                &&& t.y <= a.y
                &&& a.y + a.h <= t.y + t.h
            }
        }),
{
}

/// Whether `a` is what a window of the size seen is anchored to.
pub open spec fn anchors(a: Rect, seen: Rect, t: Rect, g: PlacementGrid) -> bool {
    let last_col = g.cols > 1 && g.col + 1 == g.cols;
    let last_row = g.rows > 1 && g.row + 1 == g.rows;
    &&& if seen.w >= 1024 {
        a.w == seen.w
    } else {
        a.w == 1024
    }
    &&& if seen.h >= 1024 {
        a.h == seen.h
    } else {
        a.h == 1024
    }
    &&& last_col && i64::MIN <= t.x + t.w - a.w <= i64::MAX ==> a.x + a.w == t.x + t.w
    &&& !last_col ==> a.x == t.x
    &&& last_row && i64::MIN <= t.y + t.h - a.h <= i64::MAX ==> a.y + a.h == t.y + t.h
    &&& !last_row ==> a.y == t.y
}

/// Whether no component of one rectangle is further than `eps` from that of the other.
pub open spec fn close(a: Rect, b: Rect, eps: i64) -> bool {
    &&& -eps <= a.x - b.x <= eps
    &&& -eps <= a.y - b.y <= eps
    &&& -eps <= a.w - b.w <= eps
    &&& -eps <= a.h - b.h <= eps
}

/// Whether the window was seen at a rectangle in one of the exchanges.
pub open spec fn told(events: Seq<AxEvent>, seen: Rect) -> bool {
    exists|j: int| 0 <= j < events.len() && #[trigger] tells(events[j], seen)
}

/// Whether an exchange ended with the window seen at a rectangle.
pub open spec fn tells(event: AxEvent, seen: Rect) -> bool {
    event matches AxEvent::Placed { call: _, reply: Ok((got, _)) } && got == seen
}

/// The rectangle that a request aims at.
pub open spec fn aim<H>(inputs: Inputs<H>, call: PlaceCall) -> Rect {
    match call {
        PlaceCall::Apply { target, .. } => target,
        PlaceCall::SizeOnly { .. } => inputs.target,
        PlaceCall::Nudge { target, .. } => target,
        PlaceCall::Fallback { target, .. } => target,
    }
}

spec fn on_track<H: DecisionHooks>(inputs: Inputs<H>, events: Seq<AxEvent>, p: Progress) -> bool {
    &&& p.stage is Primary <==> events.len() == 0
    &&& p.stage is Primary ==> p.timeline.len() == 0
    &&& p.stage matches Stage::Nudge(axis) ==> {
        &&& events.len() == 1
        &&& tells(events[0], p.got)
        &&& off_along(p.got, inputs.target, inputs.eps, axis)
        &&& inputs.limits.max_axis_nudges > 0
    }
    &&& !(p.stage is Primary) && !(p.stage is Finished) ==> told(events, p.got)
    &&& p.stage is ForcedFallback || p.stage is LastFallback ==> inputs.limits.max_fallback_runs > 0
    &&& p.stage is SizeOnly ==> inputs.can_size != Some(false)
    &&& p.stage matches Stage::Finished(Verdict::Verified(success)) ==> {
        &&& events.len() > 0
        &&& tells(events.last(), success.final_rect)
        &&& success.anchored_target matches Some(a) ==> exists|seen: Rect|
            #[trigger] told(events.drop_last(), seen) && anchors(
                a,
                seen,
                inputs.target,
                inputs.grid,
            )
        &&& close(
            success.final_rect,
            match success.anchored_target {
                Some(a) => a,
                None => inputs.target,
            },
            inputs.eps,
        )
    }
    &&& p.retry_verified && !(p.stage is Finished) ==> {
        &&& p.stage is ForcedFallback
    }
    &&& p.stage matches Stage::Finished(Verdict::OnlyAttemptFailed { got, .. }) ==> told(events, got)
    &&& p.stage matches Stage::Finished(Verdict::Failed { got, .. }) ==> told(events, got)
    &&& p.stage matches Stage::Finished(Verdict::Aborted(error)) ==> events.len() > 0 && reply_of(
        events.last(),
    ) == Err::<(Rect, u64), Error>(error)
}

/// Whether a rectangle is off along one axis, and along that one alone.
pub open spec fn off_along(got: Rect, target: Rect, eps: i64, axis: Axis) -> bool {
    let across = -eps <= got.x - target.x <= eps && -eps <= got.w - target.w <= eps;
    let up = -eps <= got.y - target.y <= eps && -eps <= got.h - target.h <= eps;
    match axis {
        Axis::Horizontal => !across && up,
        Axis::Vertical => across && !up,
    }
}

proof fn told_once_told<H>(events: Seq<AxEvent>, seen: Rect)
    requires
        events.len() > 0,
        told(events.drop_last(), seen),
    ensures
        told(events, seen),
{
    let j = choose|j: int|
        0 <= j < events.drop_last().len() && #[trigger] tells(events.drop_last()[j], seen);
    assert(tells(events[j], seen));
}

#[verifier::rlimit(40)]
proof fn stays_on_track<H: DecisionHooks>(inputs: Inputs<H>, events: Seq<AxEvent>)
    requires
        follows_strategy(inputs, events),
    ensures
        on_track(inputs, events, progress_after(inputs, events)),
    decreases events.len(),
{
    if events.len() > 0 {
        let before = events.drop_last();
        stays_on_track(inputs, before);
        let p = progress_after(inputs, before);
        let q = progress_after(inputs, events);
        let reply = reply_of(events.last());
        assert(q == advanced(inputs, p, reply));
        if told(before, p.got) {
            told_once_told::<H>(events, p.got);
        }
        if let Ok((got, _)) = reply {
            assert(tells(events[events.len() - 1], got));
            assert(told(events, got));
        }
        anchors_keep_the_outer_edges(inputs, p.got);
    }
}

/// The first request sets the whole target, position first unless only the size can be
/// set. A nudge is only asked for second, where one was allowed, after the window was
/// seen off along the axis that is nudged and along no other. A later request for
/// position and size either aims at the target in the opposite order, or anchors the
/// window at a size that it was seen with. Every request is for the same window, with the
/// same tolerance and the same pauses.
pub proof fn every_request_is_called_for<H: DecisionHooks>(
    inputs: Inputs<H>,
    events: Seq<AxEvent>,
    i: int,
)
    requires
        follows_strategy(inputs, events),
        0 <= i < events.len(),
    ensures
        events[i] is Placed,
        i == 0 ==> events[i]->call is Apply,
        match events[i]->call {
            PlaceCall::Apply { label, win, target, pos_first, eps, timing } => {
                &&& label == inputs.label
                &&& win == inputs.win && eps == inputs.eps && timing == inputs.timing
                &&& i == 0 ==> target == inputs.target && (pos_first <==> !(inputs.can_pos == Some(
                    false,
                ) && inputs.can_size == Some(true)))
                &&& i > 0 ==> {
                    ||| target == inputs.target && (pos_first <==> inputs.can_pos == Some(false)
                        && inputs.can_size == Some(true))
                    ||| pos_first && exists|seen: Rect| #[trigger]
                        told(events.take(i), seen) && anchors(
                            target,
                            seen,
                            inputs.target,
                            inputs.grid,
                        )
                }
            },
            PlaceCall::Nudge { label, win, target, axis, eps, timing } => {
                &&& label == inputs.label
                &&& win == inputs.win && eps == inputs.eps && timing == inputs.timing
                &&& target == inputs.target
                &&& i == 1
                &&& inputs.limits.max_axis_nudges > 0
                &&& exists|seen: Rect| #[trigger]
                    tells(events[0], seen) && off_along(seen, inputs.target, inputs.eps, axis)
            },
            PlaceCall::SizeOnly { label, win, width, height, eps, timing } => {
                &&& label == inputs.label + ":size-only"@
                &&& win == inputs.win && eps == inputs.eps && timing == inputs.timing
                &&& width == inputs.target.w && height == inputs.target.h
                &&& inputs.can_size != Some(false)
            },
            PlaceCall::Fallback { label, win, target, eps, timing } => {
                &&& label == inputs.label
                &&& win == inputs.win && eps == inputs.eps && timing == inputs.timing
                &&& target == inputs.target
                &&& inputs.limits.max_fallback_runs > 0
            },
        },
{
    requests_follow_from_the_answers(inputs, events, i);
    prefix_follows(inputs, events, i);
    let before = events.take(i);
    stays_on_track(inputs, before);
    let p = progress_after(inputs, before);
    anchors_keep_the_outer_edges(inputs, p.got);
    if p.stage is Nudge {
        assert(tells(before[0], p.got));
        assert(before[0] == events[0]);
    }
}

/// The first exchanges of a placement follow the strategy as well.
pub proof fn prefix_follows<H: DecisionHooks>(inputs: Inputs<H>, events: Seq<AxEvent>, n: int)
    requires
        follows_strategy(inputs, events),
        0 <= n <= events.len(),
    ensures
        follows_strategy(inputs, events.take(n)),
    decreases events.len(),
{
    if n == events.len() {
        assert(events.take(n) =~= events);
    } else {
        prefix_follows(inputs, events.drop_last(), n);
        assert(events.drop_last().take(n) =~= events.take(n));
    }
}

spec fn recorded<H>(
    inputs: Inputs<H>,
    call: PlaceCall,
    first: bool,
    before: Seq<AttemptRecord>,
    after: Seq<AttemptRecord>,
    got: Rect,
    took: u64,
) -> bool {
    let record = after.last();
    &&& after.len() == before.len() + 1
    &&& after.drop_last() == before
    &&& record.settle_ms == took
    &&& record.verified <==> close(got, aim(inputs, call), inputs.eps)
    &&& first <==> record.kind is Primary
    &&& call is Nudge <==> record.kind is AxisNudge
    &&& call is SizeOnly <==> record.kind is SizeOnly
    &&& call is Fallback <==> record.kind is FallbackShrinkMoveGrow
    &&& call is Nudge ==> (record.order is AxisHorizontal <==> call->axis is Horizontal) && (
    record.order is AxisVertical <==> call->axis is Vertical)
    &&& record.kind is Primary || record.kind is RetryOpposite ==> (record.order is PosThenSize
        <==> call->pos_first) && (record.order is SizeThenPos <==> !call->pos_first)
    &&& record.kind is AnchorSizeOnly || record.kind is AnchorLegal <==> record.order is Anchor
}

proof fn one_answer_is_recorded<H: DecisionHooks>(
    inputs: Inputs<H>,
    p: Progress,
    got: Rect,
    took: u64,
)
    requires
        !(p.stage is Finished),
    ensures
        recorded(
            inputs,
            request(inputs, p),
            p.stage is Primary,
            p.timeline,
            advanced(inputs, p, Ok((got, took))).timeline,
            got,
            took,
        ),
{
    let q = advanced(inputs, p, Ok((got, took)));
    assert(q.timeline == p.timeline.push(q.timeline.last()));
    assert(q.timeline.drop_last() =~= p.timeline);
}

/// Every answer that says where the window is adds one record, with the time that the
/// window took; it counts as verified exactly when the window is within the tolerance of
/// what was asked for, component by component. An error adds none.
pub proof fn every_answer_is_recorded<H: DecisionHooks>(
    inputs: Inputs<H>,
    events: Seq<AxEvent>,
    i: int,
)
    requires
        follows_strategy(inputs, events),
        0 <= i < events.len(),
    ensures
        ({
            let before = progress_after(inputs, events.take(i)).timeline;
            let after = progress_after(inputs, events.take(i + 1)).timeline;
            let call = events[i]->call;
            &&& events[i]->reply is Err ==> after == before
            &&& events[i]->reply matches Ok((got, took)) ==> {
                let record = after.last();
                &&& after.len() == before.len() + 1
                &&& after.drop_last() == before
                &&& record.settle_ms == took
                &&& record.verified <==> close(got, aim(inputs, call), inputs.eps)
                &&& i == 0 <==> record.kind is Primary
                &&& call is Nudge <==> record.kind is AxisNudge
                &&& call is SizeOnly <==> record.kind is SizeOnly
                &&& call is Fallback <==> record.kind is FallbackShrinkMoveGrow
                &&& call is Nudge ==> (record.order is AxisHorizontal <==> call->axis
                    is Horizontal) && (record.order is AxisVertical <==> call->axis is Vertical)
                &&& record.kind is Primary || record.kind is RetryOpposite ==> (record.order
                    is PosThenSize <==> call->pos_first) && (record.order is SizeThenPos
                    <==> !call->pos_first)
                &&& record.kind is AnchorSizeOnly || record.kind is AnchorLegal
                    <==> record.order is Anchor
            }
        }),
{
    requests_follow_from_the_answers(inputs, events, i);
    prefix_follows(inputs, events, i);
    let p = progress_after(inputs, events.take(i));
    stays_on_track(inputs, events.take(i));
    if let Ok((got, took)) = events[i]->reply {
        one_answer_is_recorded(inputs, p, got, took);
    }
}

/// A window that is seen where it was asked to be ends the placement, with success: after a
/// nudge, an anchor or a run of shrink, move and grow in any case, after the first attempt
/// unless a second one is forced, and after the opposite order unless shrink, move and grow
/// is asked for outright.
pub proof fn seeing_the_window_in_place_ends_the_placement<H: DecisionHooks>(
    inputs: Inputs<H>,
    events: Seq<AxEvent>,
    i: int,
)
    requires
        follows_strategy(inputs, events),
        0 <= i < events.len(),
        events[i]->reply is Ok,
        close((events[i]->reply->Ok_0).0, aim(inputs, events[i]->call), inputs.eps),
    ensures
        ({
            let kind = progress_after(inputs, events.take(i + 1)).timeline.last().kind;
            let got = (events[i]->reply->Ok_0).0;
            let anchored = kind is AnchorSizeOnly || kind is AnchorLegal;
            let forced = inputs.limits.max_fallback_runs > 0 && exists|timeline: Seq<AttemptRecord>|
                #[trigger] inputs.hooks.falls_back(
                    FallbackTrigger::Forced,
                    inputs.target,
                    inputs.visible_frame,
                    timeline,
                );
            (kind is AxisNudge || anchored || kind is FallbackShrinkMoveGrow || kind is Primary
                && !inputs.force || kind is RetryOpposite && !forced) ==> {
                &&& i + 1 == events.len()
                &&& progress_after(inputs, events).stage == Stage::Finished(
                    Verdict::Verified(
                        PlacementSuccess {
                            final_rect: got,
                            anchored_target: if anchored {
                                Some(aim(inputs, events[i]->call))
                            } else {
                                None
                            },
                        },
                    ),
                )
            }
        }),
{
    requests_follow_from_the_answers(inputs, events, i);
    prefix_follows(inputs, events, i);
    stays_on_track(inputs, events.take(i));
    if i + 1 < events.len() {
        requests_follow_from_the_answers(inputs, events, i + 1);
    } else {
        assert(events.take(i + 1) =~= events);
    }
}

proof fn made_with_one_more(timeline: Seq<AttemptRecord>, record: AttemptRecord, kind: AttemptKind)
    ensures
        made(timeline.push(record), kind) <==> made(timeline, kind) || kind == record.kind,
{
    let after = timeline.push(record);
    if made(timeline, kind) {
        let i = choose|i: int| 0 <= i < timeline.len() && (#[trigger] timeline[i]).kind == kind;
        assert(after[i].kind == kind);
    }
    if kind == record.kind {
        assert(after[timeline.len() as int].kind == kind);
    }
    if made(after, kind) {
        let i = choose|i: int| 0 <= i < after.len() && (#[trigger] after[i]).kind == kind;
        if i < timeline.len() {
            assert(timeline[i].kind == kind);
        }
    }
}

/// Whether a window has its origin in place but not its size.
pub open spec fn latched(got: Rect, target: Rect, eps: i64) -> bool {
    &&& -eps <= got.x - target.x <= eps && -eps <= got.y - target.y <= eps
    &&& !(-eps <= got.w - target.w <= eps && -eps <= got.h - target.h <= eps)
}

/// Whether the window was seen latched in one of the exchanges.
pub open spec fn seen_latched(events: Seq<AxEvent>, target: Rect, eps: i64) -> bool {
    exists|seen: Rect| #[trigger] told(events, seen) && latched(seen, target, eps)
}

/// Whether a placement ended with every attempt made.
pub open spec fn gave_up(stage: Stage) -> bool {
    stage matches Stage::Finished(Verdict::Failed { .. })
}

spec fn off_in_size(d: Diffs, eps: i64) -> bool {
    d.origin_within(eps as int) && !d.size_within(eps as int)
}

spec fn uses_what_is_allowed<H: DecisionHooks>(inputs: Inputs<H>, p: Progress, latch: bool) -> bool {
    let max = inputs.limits.max_anchor_attempts;
    let resized = made(p.timeline, AttemptKind::AnchorSizeOnly) || p.stage is AnchorResized;
    let legal = made(p.timeline, AttemptKind::AnchorLegal);
    let fell_back = made(p.timeline, AttemptKind::FallbackShrinkMoveGrow);
    &&& !(p.stage is Finished) && !legal ==> p.anchors_left + (if resized {
        1int
    } else {
        0int
    }) == max
    &&& p.stage is Primary || p.stage is Nudge || p.stage is Opposite || p.stage is ForcedFallback
        || p.stage is SizeOnly ==> !made(p.timeline, AttemptKind::AnchorSizeOnly)
    &&& p.stage is Nudge && off_in_size(p.diffs, inputs.eps) ==> latch
    &&& p.stage is LastFallback || gave_up(p.stage) ==> fell_back || legal || max == 0 || max == 1
        && resized
    &&& gave_up(p.stage) ==> fell_back || !(inputs.limits.max_fallback_runs > 0
        && inputs.hooks.falls_back(
        FallbackTrigger::Final,
        inputs.target,
        inputs.visible_frame,
        p.timeline,
    ))
    &&& !(p.stage is Primary) && !(p.stage is Nudge) && !(p.stage is Opposite) && (!(
    p.stage is Finished) || gave_up(p.stage)) ==> made(p.timeline, AttemptKind::RetryOpposite)
        || !inputs.force && (inputs.limits.max_opposite_order == 0 || latch)
}

proof fn one_more_sighting_uses_what_is_allowed<H: DecisionHooks>(
    inputs: Inputs<H>,
    p: Progress,
    got: Rect,
    took: u64,
    before: bool,
    latch: bool,
)
    requires
        uses_what_is_allowed(inputs, p, before),
        before || off_in_size(diffs_spec(got, inputs.target), inputs.eps) ==> latch,
        !(p.stage is Finished),
    ensures
        uses_what_is_allowed(inputs, advanced(inputs, p, Ok((got, took))), latch),
{
    let q = advanced(inputs, p, Ok((got, took)));
    let record = q.timeline.last();
    assert(q.timeline == p.timeline.push(record));
    made_with_one_more(p.timeline, record, AttemptKind::AnchorSizeOnly);
    made_with_one_more(p.timeline, record, AttemptKind::AnchorLegal);
    made_with_one_more(p.timeline, record, AttemptKind::FallbackShrinkMoveGrow);
    made_with_one_more(p.timeline, record, AttemptKind::RetryOpposite);
}

proof fn keeps_using_what_is_allowed<H: DecisionHooks>(inputs: Inputs<H>, events: Seq<AxEvent>)
    requires
        follows_strategy(inputs, events),
    ensures
        uses_what_is_allowed(
            inputs,
            progress_after(inputs, events),
            seen_latched(events, inputs.target, inputs.eps),
        ),
    decreases events.len(),
{
    let now = seen_latched(events, inputs.target, inputs.eps);
    if events.len() > 0 {
        let before = events.drop_last();
        keeps_using_what_is_allowed(inputs, before);
        let earlier = seen_latched(before, inputs.target, inputs.eps);
        let p = progress_after(inputs, before);
        if earlier {
            let seen = choose|seen: Rect| #[trigger]
                told(before, seen) && latched(seen, inputs.target, inputs.eps);
            told_once_told::<H>(events, seen);
        }
        if let Ok((got, took)) = reply_of(events.last()) {
            assert(tells(events[events.len() - 1], got));
            assert(told(events, got));
            if off_in_size(diffs_spec(got, inputs.target), inputs.eps) {
                assert(latched(got, inputs.target, inputs.eps));
            }
            one_more_sighting_uses_what_is_allowed(inputs, p, got, took, earlier, now);
        }
    }
}

/// A placement that gives up has used what it was allowed: the opposite order, unless the
/// window was seen latched; an anchor of the legal size, as long as anchors were left; and
/// shrink, move and grow, unless that was refused.
pub proof fn giving_up_means_nothing_was_left<H: DecisionHooks>(
    inputs: Inputs<H>,
    events: Seq<AxEvent>,
)
    requires
        follows_strategy(inputs, events),
        progress_after(inputs, events).stage matches Stage::Finished(Verdict::Failed { .. }),
    ensures
        ({
            let timeline = progress_after(inputs, events).timeline;
            let fell_back = made(timeline, AttemptKind::FallbackShrinkMoveGrow);
            let max = inputs.limits.max_anchor_attempts;
            &&& fell_back || !(inputs.limits.max_fallback_runs > 0 && inputs.hooks.falls_back(
                FallbackTrigger::Final,
                inputs.target,
                inputs.visible_frame,
                timeline,
            ))
            &&& fell_back || made(timeline, AttemptKind::AnchorLegal) || max == 0 || max == 1
                && made(timeline, AttemptKind::AnchorSizeOnly)
            &&& made(timeline, AttemptKind::RetryOpposite) || !inputs.force && (
            inputs.limits.max_opposite_order == 0 || seen_latched(
                events,
                inputs.target,
                inputs.eps,
            ))
        }),
{
    keeps_using_what_is_allowed(inputs, events);
}

/// How many exchanges ended with the window seen somewhere.
pub open spec fn sightings(events: Seq<AxEvent>) -> nat
    decreases events.len(),
{
    if events.len() == 0 {
        0
    } else {
        sightings(events.drop_last()) + if events.last() matches AxEvent::Placed {
            call: _,
            reply: Ok(_),
        } {
            1nat
        } else {
            0nat
        }
    }
}

proof fn one_record_per_sighting<H: DecisionHooks>(inputs: Inputs<H>, events: Seq<AxEvent>)
    requires
        follows_strategy(inputs, events),
    ensures
        progress_after(inputs, events).timeline.len() == sightings(events),
    decreases events.len(),
{
    if events.len() > 0 {
        one_record_per_sighting(inputs, events.drop_last());
        let p = progress_after(inputs, events.drop_last());
        if let Ok((got, took)) = reply_of(events.last()) {
            one_answer_is_recorded(inputs, p, got, took);
        }
    }
}

/// What a placement reports is what it saw. Success: the window was last seen within the
/// tolerance of the target, or of the target anchored at a size that it was seen with
/// before. Failure: the rectangle reported is one that the window was seen at, the flags
/// name the edges at which it meets the frame reported with it, and there is a record for
/// every time that the window was seen. An error: the last answer was that error.
#[verifier::spinoff_prover]
#[verifier::rlimit(60)]
pub proof fn what_is_reported_was_seen<H: DecisionHooks>(
    ctx: PlacementContext<H>,
    config: PlacementEngineConfig<'_>,
    log_before: Seq<AxEvent>,
    log_after: Seq<AxEvent>,
    counters_before: PlacementCountersSnapshot,
    counters_now: PlacementCountersSnapshot,
    result: Result<PlacementOutcome, Error>,
)
    requires
        ran(ctx, config, log_before, log_after, counters_before, counters_now, result),
    ensures
        ({
            let seen = log_after.skip(log_before.len() as int);
            let eps = ctx.options@.tuning.epsilon;
            match result {
                Ok(PlacementOutcome::Verified(success)) => {
                    &&& tells(log_after.last(), success.final_rect)
                    &&& success.anchored_target is None ==> close(
                        success.final_rect,
                        ctx.target,
                        eps,
                    )
                    &&& success.anchored_target matches Some(a) ==> close(
                        success.final_rect,
                        a,
                        eps,
                    ) && exists|size: Rect| #[trigger]
                        told(seen, size) && anchors(a, size, ctx.target, config.grid)
                },
                Ok(PlacementOutcome::PosFirstOnlyFailure(failure)) => told(seen, failure.got)
                    && meets_frame(failure.got, failure.visible_frame, failure.clamped, eps)
                    && failure.timeline@.len() == sightings(seen),
                Ok(PlacementOutcome::VerificationFailure(failure)) => told(seen, failure.got)
                    && meets_frame(failure.got, failure.visible_frame, failure.clamped, eps)
                    && failure.timeline@.len() == sightings(seen),
                Err(error) => log_after.last() matches AxEvent::Placed { call: _, reply: Err(e) }
                    && e == error,
            }
        }),
{
    let first = log_after[log_before.len() as int];
    let inputs = inputs_of(ctx, config, first->Settable_can_pos, first->Settable_can_size);
    let events = exchanges(log_before, log_after);
    let seen = log_after.skip(log_before.len() as int);
    let end = progress_after(inputs, events);
    stays_on_track(inputs, events);
    one_record_per_sighting(inputs, events);
    let added = log_after.skip(log_before.len() as int + 1);
    if fell_short(end) {
        assert(added.last() is Settable);
        assert(seen =~= seq![first] + events + seq![log_after.last()]);
        sightings_of_placing(first, events, log_after.last());
        match end.stage {
            Stage::Finished(Verdict::OnlyAttemptFailed { got, .. }) => {
                told_around(first, events, seq![log_after.last()], got);
            },
            Stage::Finished(Verdict::Failed { got, .. }) => {
                told_around(first, events, seq![log_after.last()], got);
            },
            _ => {},
        }
    } else {
        assert(seen =~= seq![first] + events + Seq::<AxEvent>::empty());
        assert(events.len() > 0 ==> events.last() == log_after.last());
        if let Stage::Finished(Verdict::Verified(success)) = end.stage {
            if let Some(a) = success.anchored_target {
                let size = choose|size: Rect| #[trigger]
                    told(events.drop_last(), size) && anchors(a, size, inputs.target, inputs.grid);
                told_once_told::<H>(events, size);
                told_around(first, events, Seq::empty(), size);
            }
        }
    }
}

proof fn told_around(first: AxEvent, events: Seq<AxEvent>, rest: Seq<AxEvent>, r: Rect)
    requires
        told(events, r),
    ensures
        told(seq![first] + events + rest, r),
{
    let all = seq![first] + events + rest;
    let j = choose|j: int| 0 <= j < events.len() && #[trigger] tells(events[j], r);
    assert(all[j + 1] == events[j]);
    assert(tells(all[j + 1], r));
}

proof fn sightings_of_placing(first: AxEvent, events: Seq<AxEvent>, last: AxEvent)
    requires
        first is Settable,
        last is Settable,
    ensures
        sightings(seq![first] + events + seq![last]) == sightings(events),
{
    reveal_with_fuel(sightings, 2);
    sightings_in_two(seq![first], events);
    sightings_in_two(seq![first] + events, seq![last]);
    assert(seq![first].drop_last() =~= Seq::empty());
    assert(seq![last].drop_last() =~= Seq::empty());
}

proof fn sightings_in_two(a: Seq<AxEvent>, b: Seq<AxEvent>)
    ensures
        sightings(a + b) == sightings(a) + sightings(b),
    decreases b.len(),
{
    if b.len() == 0 {
        assert(a + b =~= a);
    } else {
        assert((a + b).drop_last() =~= a + b.drop_last());
        assert((a + b).last() == b.last());
        sightings_in_two(a, b.drop_last());
    }
}

/// Whether flags name the edges at which a rectangle meets a frame.
pub open spec fn meets_frame(got: Rect, frame: Rect, flags: ClampFlags, eps: i64) -> bool {
    &&& flags.left <==> -eps <= got.x - frame.x <= eps
    &&& flags.bottom <==> -eps <= got.y - frame.y <= eps
    &&& flags.right <==> -eps <= (got.x + got.w) - (frame.x + frame.w) <= eps
    &&& flags.top <==> -eps <= (got.y + got.h) - (frame.y + frame.h) <= eps
}

/// How many attempts of a kind there are.
pub open spec fn times(timeline: Seq<AttemptRecord>, kind: AttemptKind) -> int
    decreases timeline.len(),
{
    if timeline.len() == 0 {
        0
    } else {
        times(timeline.drop_last(), kind) + if timeline.last().kind == kind {
            1int
        } else {
            0int
        }
    }
}

/// How many attempts of a kind verified.
pub open spec fn times_verified(timeline: Seq<AttemptRecord>, kind: AttemptKind) -> int
    decreases timeline.len(),
{
    if timeline.len() == 0 {
        0
    } else {
        times_verified(timeline.drop_last(), kind) + if timeline.last().kind == kind
            && timeline.last().verified {
            1int
        } else {
            0int
        }
    }
}

/// How long attempts of a kind took altogether.
pub open spec fn time_taken(timeline: Seq<AttemptRecord>, kind: AttemptKind) -> int
    decreases timeline.len(),
{
    if timeline.len() == 0 {
        0
    } else {
        time_taken(timeline.drop_last(), kind) + if timeline.last().kind == kind {
            timeline.last().settle_ms as int
        } else {
            0int
        }
    }
}

/// Whether the statistics of a kind took in the attempts of that kind. Sums wrap around at
/// the end of the counters' range.
pub open spec fn takes_in(
    before: AttemptSnapshot,
    after: AttemptSnapshot,
    timeline: Seq<AttemptRecord>,
    kind: AttemptKind,
) -> bool {
    &&& after.attempts == (before.attempts + times(timeline, kind)) % 0x1_0000_0000_0000_0000
    &&& after.verified == (before.verified + times_verified(timeline, kind))
        % 0x1_0000_0000_0000_0000
    &&& after.settle_ms_total == (before.settle_ms_total + time_taken(timeline, kind))
        % 0x1_0000_0000_0000_0000
}

/// The statistics of a kind, by the counter that bears its name.
pub open spec fn named_after(c: PlacementCountersSnapshot, kind: AttemptKind) -> AttemptSnapshot {
    match kind {
        AttemptKind::Primary => c.primary,
        AttemptKind::AxisNudge => c.axis_nudge,
        AttemptKind::RetryOpposite => c.retry_opposite,
        AttemptKind::SizeOnly => c.size_only,
        AttemptKind::AnchorSizeOnly => c.anchor_size_only,
        AttemptKind::AnchorLegal => c.anchor_legal,
        AttemptKind::FallbackShrinkMoveGrow => c.fallback_smg,
    }
}

proof fn one_more_wraps(before: int, n: int, m: u64, sum: u64)
    requires
        sum == (before + n) % 0x1_0000_0000_0000_0000,
    ensures
        wrapped_sum(sum, m) == (before + n + m) % 0x1_0000_0000_0000_0000,
{
}

/// Every attempt is counted once, under its own kind, with its time and with whether it
/// verified. Neither safe parks nor failures are touched by that.
pub proof fn every_attempt_is_counted_once(
    counters: PlacementCountersSnapshot,
    timeline: Seq<AttemptRecord>,
    kind: AttemptKind,
)
    ensures
        takes_in(
            named_after(counters, kind),
            named_after(counters.tallied(timeline), kind),
            timeline,
            kind,
        ),
        counters.tallied(timeline).safe_park == counters.safe_park,
        counters.tallied(timeline).failures == counters.failures,
    decreases timeline.len(),
{
    if timeline.len() > 0 {
        let rest = timeline.drop_last();
        every_attempt_is_counted_once(counters, rest, kind);
        let c0 = named_after(counters, kind);
        let c1 = named_after(counters.tallied(rest), kind);
        let last = timeline.last();
        if last.kind == kind {
            one_more_wraps(c0.attempts as int, times(rest, kind), 1, c1.attempts);
            one_more_wraps(c0.verified as int, times_verified(rest, kind), 1, c1.verified);
            one_more_wraps(
                c0.settle_ms_total as int,
                time_taken(rest, kind),
                last.settle_ms,
                c1.settle_ms_total,
            );
        }
    }
}

/// A placement that falls short is one more failure, and no other is. A safe park is one
/// more safe park, and changes nothing else.
pub proof fn failures_and_parks_are_counted_once(counters: PlacementCountersSnapshot)
    ensures
        counters.failed().failures == (counters.failures + 1) % 0x1_0000_0000_0000_0000,
        counters.failed() == (PlacementCountersSnapshot {
            failures: counters.failed().failures,
            ..counters
        }),
        counters.parked().safe_park == (counters.safe_park + 1) % 0x1_0000_0000_0000_0000,
        counters.parked() == (PlacementCountersSnapshot {
            safe_park: counters.parked().safe_park,
            ..counters
        }),
{
}

/// The counters after a placement: one more failure exactly when it is reported as one, and
/// the attempts of the records that are reported with it.
pub proof fn placements_are_counted<H: DecisionHooks>(
    ctx: PlacementContext<H>,
    config: PlacementEngineConfig<'_>,
    log_before: Seq<AxEvent>,
    log_after: Seq<AxEvent>,
    counters_before: PlacementCountersSnapshot,
    counters_now: PlacementCountersSnapshot,
    result: Result<PlacementOutcome, Error>,
)
    requires
        ran(ctx, config, log_before, log_after, counters_before, counters_now, result),
    ensures
        ({
            let failed = result is Ok && !(result->Ok_0 is Verified);
            &&& counters_now.safe_park == counters_before.safe_park
            &&& counters_now.failures == (counters_before.failures + (if failed {
                1int
            } else {
                0int
            })) % 0x1_0000_0000_0000_0000
            &&& result matches Ok(PlacementOutcome::VerificationFailure(failure)) ==> forall|
                kind: AttemptKind,
            | #[trigger]
                takes_in(
                    named_after(counters_before, kind),
                    named_after(counters_now, kind),
                    failure.timeline@,
                    kind,
                )
            &&& result is Ok ==> counters_now.primary.attempts == (counters_before.primary.attempts
                + 1) % 0x1_0000_0000_0000_0000
        }),
{
    let first = log_after[log_before.len() as int];
    let inputs = inputs_of(ctx, config, first->Settable_can_pos, first->Settable_can_size);
    let events = exchanges(log_before, log_after);
    let end = progress_after(inputs, events);
    let tallied = counters_before.tallied(end.timeline);
    assert forall|kind: AttemptKind| #[trigger]
        takes_in(
            named_after(counters_before, kind),
            named_after(counters_now, kind),
            end.timeline,
            kind,
        ) by {
        every_attempt_is_counted_once(counters_before, end.timeline, kind);
    }
    every_attempt_is_counted_once(counters_before, end.timeline, AttemptKind::Primary);
    failures_and_parks_are_counted_once(counters_before.tallied(end.timeline));
    one_first_attempt(inputs, events);
}

proof fn one_first_attempt<H: DecisionHooks>(inputs: Inputs<H>, events: Seq<AxEvent>)
    requires
        follows_strategy(inputs, events),
    ensures
        ({
            let p = progress_after(inputs, events);
            times(p.timeline, AttemptKind::Primary) == if p.timeline.len() == 0 {
                0int
            } else {
                1int
            }
        }),
        !(progress_after(inputs, events).stage is Primary) && !(progress_after(
            inputs,
            events,
        ).stage matches Stage::Finished(Verdict::Aborted(_))) ==> progress_after(
            inputs,
            events,
        ).timeline.len() > 0,
    decreases events.len(),
{
    if events.len() > 0 {
        let before = events.drop_last();
        one_first_attempt(inputs, before);
        stays_on_track(inputs, before);
        let p = progress_after(inputs, before);
        let q = progress_after(inputs, events);
        if let Ok((got, took)) = reply_of(events.last()) {
            one_answer_is_recorded(inputs, p, got, took);
            assert(q.timeline.drop_last() == p.timeline);
        }
    }
}

} // verus!
