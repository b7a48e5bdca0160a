//! What holds of every placement, whatever the window answers.

use vstd::prelude::*;

use crate::error::Error;
use crate::geom::{diffs_spec, Rect, UNITS_PER_POINT};
use crate::place::adapter::{AxEvent, PlaceCall};
use crate::place::common::{AttemptRecord, DecisionHooks, FallbackTrigger, PlacementContext};
use crate::place::engine::{
    advanced, begun, exchanges, falls_back, fell_short, follows_strategy, inputs_of, observed,
    progress_after, ran, reply_of, request, toward_anchor, toward_forced, toward_last, toward_opposite, toward_size,
    Inputs, PlacementEngineConfig, PlacementOutcome, PlacementSuccess, Progress, Stage, Verdict,
};
use crate::place::metrics::{AttemptKind, PlacementCountersSnapshot};

verus! {

/// Place of a kind in the order in which kinds are attempted.
pub open spec fn kind_rank(kind: AttemptKind) -> int {
    match kind {
        AttemptKind::Primary => 0,
        AttemptKind::AxisNudge => 1,
        AttemptKind::RetryOpposite => 2,
        AttemptKind::SizeOnly => 3,
        AttemptKind::AnchorSizeOnly => 4,
        AttemptKind::AnchorLegal => 5,
        AttemptKind::FallbackShrinkMoveGrow => 6,
    }
}

/// Whether an attempt of this kind has been made.
pub open spec fn made(timeline: Seq<AttemptRecord>, kind: AttemptKind) -> bool {
    exists|i: int| 0 <= i < timeline.len() && (#[trigger] timeline[i]).kind == kind
}

/// Whether the attempts are numbered from one and no kind comes twice.
pub open spec fn in_order(timeline: Seq<AttemptRecord>) -> bool {
    &&& forall|i: int| 0 <= i < timeline.len() ==> (#[trigger] timeline[i]).attempt_idx == i + 1
    &&& forall|i: int, j: int|
        0 <= i < j < timeline.len() ==> kind_rank((#[trigger] timeline[i]).kind) < kind_rank(
            (#[trigger] timeline[j]).kind,
        )
}

/// The attempts that a stage may still be preceded by.
spec fn kinds_before(stage: Stage) -> int {
    match stage {
        Stage::Primary => 0,
        Stage::Nudge(_) => 1,
        Stage::Opposite => 2,
        Stage::ForcedFallback => 3,
        Stage::SizeOnly => 3,
        Stage::AnchorResized => 4,
        Stage::AnchorLegal => 5,
        Stage::LastFallback => 6,
        Stage::Finished(_) => 7,
    }
}

/// The rectangle that a success is measured against.
pub open spec fn measured_against<H>(inputs: Inputs<H>, success: PlacementSuccess) -> Rect {
    match success.anchored_target {
        Some(anchored) => anchored,
        None => inputs.target,
    }
}

spec fn sound<H: DecisionHooks>(inputs: Inputs<H>, p: Progress) -> bool {
    &&& in_order(p.timeline)
    &&& forall|i: int|
        0 <= i < p.timeline.len() ==> 0 <= kind_rank((#[trigger] p.timeline[i]).kind)
            < kinds_before(p.stage)
    &&& p.retry_verified ==> p.got.matches(inputs.target, inputs.eps as int)
    &&& p.retry_verified ==> (p.stage is Finished || p.stage is ForcedFallback)
    &&& p.timeline.len() > 0 ==> p.timeline[0].kind is Primary
    &&& !(p.stage is Primary) && !(p.stage matches Stage::Finished(Verdict::Aborted(_)))
        ==> p.timeline.len() > 0
    &&& expects_a_miss(p.stage) ==> missed(p.timeline)
    &&& p.stage is Nudge ==> inputs.limits.max_axis_nudges > 0
    &&& p.stage is Opposite ==> inputs.opposite_allowed()
    &&& p.stage is ForcedFallback || p.stage is LastFallback ==> inputs.limits.max_fallback_runs > 0
    &&& made(p.timeline, AttemptKind::AxisNudge) ==> inputs.limits.max_axis_nudges > 0
    &&& made(p.timeline, AttemptKind::RetryOpposite) ==> inputs.opposite_allowed()
    &&& made(p.timeline, AttemptKind::FallbackShrinkMoveGrow) ==> inputs.limits.max_fallback_runs
        > 0
    &&& anchors_accounted(inputs, p)
    &&& p.stage matches Stage::Finished(Verdict::Verified(success)) ==> {
        &&& success.final_rect.matches(measured_against(inputs, success), inputs.eps as int)
        &&& success.anchored_target matches Some(anchored) ==> exists|seen: Rect|
            anchored == #[trigger] inputs.anchored(seen)
    }
}

/// Whether the last attempt did not verify.
pub open spec fn missed(timeline: Seq<AttemptRecord>) -> bool {
    timeline.len() > 0 && !timeline.last().verified
}

/// Whether a stage is only reached when the last attempt did not verify.
spec fn expects_a_miss(stage: Stage) -> bool {
    stage is Nudge || stage is SizeOnly || stage is AnchorLegal || stage is LastFallback || stage
        matches Stage::Finished(Verdict::Failed { .. })
}

spec fn anchors_used(p: Progress) -> int {
    let resized = p.stage is AnchorResized || made(p.timeline, AttemptKind::AnchorSizeOnly);
    let legal = made(p.timeline, AttemptKind::AnchorLegal);
    (if resized {
        1int
    } else {
        0
    }) + (if legal {
        1int
    } else {
        0
    })
}

spec fn anchors_accounted<H>(inputs: Inputs<H>, p: Progress) -> bool {
    let legal = made(p.timeline, AttemptKind::AnchorLegal);
    &&& anchors_used(p) <= inputs.limits.max_anchor_attempts
    &&& !legal && !(p.stage is Finished) ==> p.anchors_left + anchors_used(p) == inputs.limits.max_anchor_attempts
    &&& p.stage is AnchorLegal ==> p.anchors_left > 0
}

/// A push keeps the order when the new attempt ranks after the others.
proof fn push_in_order(timeline: Seq<AttemptRecord>, record: AttemptRecord)
    requires
        in_order(timeline),
        timeline.len() < 100,
        record.attempt_idx == timeline.len() + 1,
        forall|i: int|
            0 <= i < timeline.len() ==> kind_rank((#[trigger] timeline[i]).kind) < kind_rank(
                record.kind,
            ),
    ensures
        in_order(timeline.push(record)),
        forall|kind: AttemptKind|
            #[trigger] made(timeline.push(record), kind) <==> made(timeline, kind) || kind
                == record.kind,
{
    let after = timeline.push(record);
    assert forall|kind: AttemptKind|
        #[trigger] made(after, kind) <==> made(timeline, kind) || kind == record.kind by {
        if made(timeline, kind) {
            let i = choose|i: int| 0 <= i < timeline.len() && (#[trigger] timeline[i]).kind == kind;
            assert(after[i].kind == kind);
        }
        if kind == record.kind {
            assert(after[timeline.len() as int].kind == kind);
        }
        if made(after, kind) {
            let i = choose|i: int| 0 <= i < after.len() && (#[trigger] after[i]).kind == kind;
            if i < timeline.len() {
                assert(timeline[i].kind == kind);
            }
        }
    }
}

/// Attempts in order are few: one of each kind at most.
proof fn in_order_is_short(timeline: Seq<AttemptRecord>)
    requires
        in_order(timeline),
    ensures
        timeline.len() <= 7,
        timeline.len() > 0 ==> kind_rank(timeline.last().kind) + 1 >= timeline.len(),
    decreases timeline.len(),
{
    if timeline.len() > 1 {
        let before = timeline.drop_last();
        assert(in_order(before)) by {
            assert forall|i: int| 0 <= i < before.len() implies (
            #[trigger] before[i]).attempt_idx == i + 1 by {
                assert(before[i] == timeline[i]);
            }
            assert forall|i: int, j: int| 0 <= i < j < before.len() implies kind_rank(
                (#[trigger] before[i]).kind,
            ) < kind_rank((#[trigger] before[j]).kind) by {
                assert(before[i] == timeline[i] && before[j] == timeline[j]);
            }
        }
        in_order_is_short(before);
        assert(before.last() == timeline[timeline.len() - 2]);
    }
}

/// The base of a stage change: everything but the stage is sound.
spec fn ready<H: DecisionHooks>(inputs: Inputs<H>, p: Progress, upto: int) -> bool {
    &&& in_order(p.timeline)
    &&& forall|i: int|
        0 <= i < p.timeline.len() ==> 0 <= kind_rank((#[trigger] p.timeline[i]).kind) < upto
    &&& p.timeline.len() > 0
    &&& p.timeline[0].kind is Primary
    &&& p.retry_verified ==> p.got.matches(inputs.target, inputs.eps as int)
    &&& made(p.timeline, AttemptKind::AxisNudge) ==> inputs.limits.max_axis_nudges > 0
    &&& made(p.timeline, AttemptKind::RetryOpposite) ==> inputs.opposite_allowed()
    &&& made(p.timeline, AttemptKind::FallbackShrinkMoveGrow) ==> inputs.limits.max_fallback_runs
        > 0
    &&& used_by(p.timeline) <= inputs.limits.max_anchor_attempts
    &&& !made(p.timeline, AttemptKind::AnchorLegal) ==> p.anchors_left + used_by(p.timeline)
        == inputs.limits.max_anchor_attempts
}

spec fn used_by(timeline: Seq<AttemptRecord>) -> int {
    (if made(timeline, AttemptKind::AnchorSizeOnly) {
        1int
    } else {
        0
    }) + (if made(timeline, AttemptKind::AnchorLegal) {
        1int
    } else {
        0
    })
}

proof fn toward_last_sound<H: DecisionHooks>(inputs: Inputs<H>, p: Progress)
    requires
        ready(inputs, p, 6),
        missed(p.timeline),
        !p.retry_verified,
    ensures
        sound(inputs, toward_last(inputs, p)),
{
}

proof fn toward_anchor_sound<H: DecisionHooks>(inputs: Inputs<H>, p: Progress)
    requires
        ready(inputs, p, 5),
        missed(p.timeline),
        !p.retry_verified,
    ensures
        sound(inputs, toward_anchor(inputs, p)),
{
    toward_last_sound(inputs, p);
}

proof fn toward_size_sound<H: DecisionHooks>(inputs: Inputs<H>, p: Progress)
    requires
        ready(inputs, p, 3),
        p.retry_verified || missed(p.timeline),
    ensures
        sound(inputs, toward_size(inputs, p)),
{
    if !p.retry_verified {
        toward_anchor_sound(inputs, p);
    }
}

proof fn toward_forced_sound<H: DecisionHooks>(inputs: Inputs<H>, p: Progress)
    requires
        ready(inputs, p, 3),
        p.retry_verified || missed(p.timeline),
    ensures
        sound(inputs, toward_forced(inputs, p)),
{
    toward_size_sound(inputs, p);
}

proof fn toward_opposite_sound<H: DecisionHooks>(inputs: Inputs<H>, p: Progress)
    requires
        ready(inputs, p, 2),
        !p.retry_verified,
        inputs.force || missed(p.timeline),
    ensures
        sound(inputs, toward_opposite(inputs, p)),
{
    if !inputs.force {
        toward_forced_sound(inputs, p);
    }
}

proof fn after_primary_sound<H: DecisionHooks>(inputs: Inputs<H>, p: Progress, got: Rect, settle_ms: u64)
    requires
        sound(inputs, p),
        p.stage is Primary,
    ensures
        sound(inputs, observed(inputs, p, got, settle_ms)),
{
    in_order_is_short(p.timeline);
    let next = observed(inputs, p, got, settle_ms);
    let record = next.timeline.last();
    assert(next.timeline == p.timeline.push(record));
    push_in_order(p.timeline, record);
    if p.timeline.len() > 0 {
        assert(0 <= kind_rank(p.timeline[0].kind) < 0);
    }
    let q = Progress {
        got,
        vf: inputs.frame_of(got),
        diffs: diffs_spec(got, inputs.target),
        timeline: next.timeline,
        ..p
    };
    if inputs.force || !record.verified {
        toward_opposite_sound(inputs, q);
    }
}

proof fn after_nudge_sound<H: DecisionHooks>(inputs: Inputs<H>, p: Progress, got: Rect, settle_ms: u64)
    requires
        sound(inputs, p),
        p.stage is Nudge,
    ensures
        sound(inputs, observed(inputs, p, got, settle_ms)),
{
    in_order_is_short(p.timeline);
    let next = observed(inputs, p, got, settle_ms);
    let record = next.timeline.last();
    assert(next.timeline == p.timeline.push(record));
    push_in_order(p.timeline, record);
    let q = Progress { timeline: next.timeline, ..p };
    let moved = Progress {
        got,
        vf: inputs.frame_of(got),
        diffs: diffs_spec(got, inputs.target),
        ..q
    };
    if !record.verified {
        toward_opposite_sound(inputs, q);
        toward_opposite_sound(inputs, moved);
    }
}

proof fn after_opposite_sound<H: DecisionHooks>(inputs: Inputs<H>, p: Progress, got: Rect, settle_ms: u64)
    requires
        sound(inputs, p),
        p.stage is Opposite,
    ensures
        sound(inputs, observed(inputs, p, got, settle_ms)),
{
    in_order_is_short(p.timeline);
    let next = observed(inputs, p, got, settle_ms);
    let record = next.timeline.last();
    assert(next.timeline == p.timeline.push(record));
    push_in_order(p.timeline, record);
    let q = Progress {
        got,
        vf: inputs.frame_of(got),
        diffs: diffs_spec(got, inputs.target),
        retry_verified: got.matches(inputs.target, inputs.eps as int),
        timeline: next.timeline,
        ..p
    };
    toward_forced_sound(inputs, q);
}

proof fn after_size_only_sound<H: DecisionHooks>(inputs: Inputs<H>, p: Progress, got: Rect, settle_ms: u64)
    requires
        sound(inputs, p),
        p.stage is SizeOnly,
    ensures
        sound(inputs, observed(inputs, p, got, settle_ms)),
{
    in_order_is_short(p.timeline);
    let next = observed(inputs, p, got, settle_ms);
    let record = next.timeline.last();
    assert(next.timeline == p.timeline.push(record));
    push_in_order(p.timeline, record);
    let q = Progress { got, timeline: next.timeline, ..p };
    if !record.verified && q.anchors_left == 0 {
        toward_anchor_sound(inputs, q);
    }
}

proof fn after_anchor_resized_sound<H: DecisionHooks>(inputs: Inputs<H>, p: Progress, got: Rect, settle_ms: u64)
    requires
        sound(inputs, p),
        p.stage is AnchorResized,
    ensures
        sound(inputs, observed(inputs, p, got, settle_ms)),
{
    in_order_is_short(p.timeline);
    let next = observed(inputs, p, got, settle_ms);
    let record = next.timeline.last();
    assert(next.timeline == p.timeline.push(record));
    push_in_order(p.timeline, record);
    let q = Progress { timeline: next.timeline, ..p };
    if !record.verified {
        toward_anchor_sound(inputs, q);
    }
    assert(inputs.anchored(p.got) == inputs.anchored(p.got));
}

proof fn after_anchor_legal_sound<H: DecisionHooks>(inputs: Inputs<H>, p: Progress, got: Rect, settle_ms: u64)
    requires
        sound(inputs, p),
        p.stage is AnchorLegal,
    ensures
        sound(inputs, observed(inputs, p, got, settle_ms)),
{
    in_order_is_short(p.timeline);
    let next = observed(inputs, p, got, settle_ms);
    let record = next.timeline.last();
    assert(next.timeline == p.timeline.push(record));
    push_in_order(p.timeline, record);
    let q = Progress { got, vf: inputs.frame_of(got), timeline: next.timeline, ..p };
    if !record.verified {
        toward_last_sound(inputs, q);
    }
    assert(inputs.anchored(p.got) == inputs.anchored(p.got));
}

proof fn after_fallback_sound<H: DecisionHooks>(inputs: Inputs<H>, p: Progress, got: Rect, settle_ms: u64)
    requires
        sound(inputs, p),
        p.stage is ForcedFallback || p.stage is LastFallback,
    ensures
        sound(inputs, observed(inputs, p, got, settle_ms)),
{
    in_order_is_short(p.timeline);
    let next = observed(inputs, p, got, settle_ms);
    let record = next.timeline.last();
    assert(next.timeline == p.timeline.push(record));
    push_in_order(p.timeline, record);
}

proof fn advanced_sound<H: DecisionHooks>(
    inputs: Inputs<H>,
    p: Progress,
    reply: Result<(Rect, u64), Error>,
)
    requires
        sound(inputs, p),
        !(p.stage is Finished),
    ensures
        sound(inputs, advanced(inputs, p, reply)),
{
    match reply {
        Ok((got, settle_ms)) => match p.stage {
            Stage::Primary => after_primary_sound(inputs, p, got, settle_ms),
            Stage::Nudge(_) => after_nudge_sound(inputs, p, got, settle_ms),
            Stage::Opposite => after_opposite_sound(inputs, p, got, settle_ms),
            Stage::SizeOnly => after_size_only_sound(inputs, p, got, settle_ms),
            Stage::AnchorResized => after_anchor_resized_sound(inputs, p, got, settle_ms),
            Stage::AnchorLegal => after_anchor_legal_sound(inputs, p, got, settle_ms),
            _ => after_fallback_sound(inputs, p, got, settle_ms),
        },
        Err(_) => {
            if p.stage is SizeOnly {
                toward_anchor_sound(inputs, p);
            }
        },
    }
}

proof fn run_is_sound<H: DecisionHooks>(inputs: Inputs<H>, events: Seq<AxEvent>)
    requires
        follows_strategy(inputs, events),
    ensures
        sound(inputs, progress_after(inputs, events)),
    decreases events.len(),
{
    if events.len() > 0 {
        run_is_sound(inputs, events.drop_last());
        advanced_sound(
            inputs,
            progress_after(inputs, events.drop_last()),
            reply_of(events.last()),
        );
    }
}

/// Success is only reported for a window whose last observed rectangle matches,
/// within the tolerance, the target or the target anchored to a legal size.
pub proof fn success_means_the_window_is_in_place<H: DecisionHooks>(
    inputs: Inputs<H>,
    events: Seq<AxEvent>,
    success: PlacementSuccess,
)
    requires
        follows_strategy(inputs, events),
        progress_after(inputs, events).stage == Stage::Finished(Verdict::Verified(success)),
    ensures
        success.final_rect.matches(measured_against(inputs, success), inputs.eps as int),
        success.anchored_target matches Some(anchored) ==> exists|seen: Rect|
            anchored == #[trigger] inputs.anchored(seen),
        success.anchored_target matches Some(anchored) ==> anchored.w >= UNITS_PER_POINT
            && anchored.h >= UNITS_PER_POINT,
{
    run_is_sound(inputs, events);
}

/// Success is reported for the rectangle that was observed last.
pub proof fn success_reports_the_last_observation<H: DecisionHooks>(
    inputs: Inputs<H>,
    events: Seq<AxEvent>,
    success: PlacementSuccess,
)
    requires
        follows_strategy(inputs, events),
        progress_after(inputs, events).stage == Stage::Finished(Verdict::Verified(success)),
    ensures
        events.len() > 0,
        reply_of(events.last()) matches Ok((got, _)) && got == success.final_rect,
{
    run_is_sound(inputs, events.drop_last());
}

/// A pipeline that reports success has last been told the rectangle that it reports, and
/// that rectangle matches, within the tolerance, the target or the anchored rectangle that
/// is reported with it.
pub proof fn reported_success_is_the_last_answer<H: DecisionHooks>(
    ctx: PlacementContext<H>,
    config: PlacementEngineConfig<'_>,
    log_before: Seq<AxEvent>,
    log_after: Seq<AxEvent>,
    counters_before: PlacementCountersSnapshot,
    counters_after: PlacementCountersSnapshot,
    success: PlacementSuccess,
)
    requires
        ran(
            ctx,
            config,
            log_before,
            log_after,
            counters_before,
            counters_after,
            Ok(PlacementOutcome::Verified(success)),
        ),
    ensures
        log_after.last() matches AxEvent::Placed { call: _, reply: Ok((got, _)) } && got
            == success.final_rect,
        success.final_rect.matches(
            match success.anchored_target {
                Some(anchored) => anchored,
                None => ctx.target,
            },
            ctx.options@.tuning.epsilon as int,
        ),
        success.anchored_target matches Some(anchored) ==> anchored.w >= UNITS_PER_POINT
            && anchored.h >= UNITS_PER_POINT,
{
    let first = log_after[log_before.len() as int];
    let inputs = inputs_of(
        ctx,
        config,
        first->Settable_can_pos,
        first->Settable_can_size,
    );
    let events = exchanges(log_before, log_after);
    success_means_the_window_is_in_place(inputs, events, success);
    success_reports_the_last_observation(inputs, events, success);
    assert(log_after.skip(log_before.len() as int + 1).last() == log_after.last());
}

/// A failure lists the attempts from the first one on, numbered without gaps; and where
/// more than one was allowed, the last of them did not verify.
pub proof fn failure_means_the_last_attempt_missed<H: DecisionHooks>(
    inputs: Inputs<H>,
    events: Seq<AxEvent>,
)
    requires
        follows_strategy(inputs, events),
        fell_short(progress_after(inputs, events)),
    ensures
        ({
            let end = progress_after(inputs, events);
            &&& end.timeline.len() > 0
            &&& end.timeline[0].kind is Primary
            &&& forall|i: int|
                0 <= i < end.timeline.len() ==> (#[trigger] end.timeline[i]).attempt_idx == i + 1
            &&& end.stage matches Stage::Finished(Verdict::Failed { .. }) ==> missed(end.timeline)
        }),
{
    run_is_sound(inputs, events);
}

/// Whether nothing is forced: neither a second attempt nor a run of shrink, move and
/// grow.
pub open spec fn unforced<H: DecisionHooks>(inputs: Inputs<H>) -> bool {
    &&& !inputs.force
    &&& forall|p: Progress| !#[trigger] falls_back(inputs, p, FallbackTrigger::Forced)
}

/// Whether an attempt was a change of the size alone, with an anchor made after it.
pub open spec fn anchored_next(timeline: Seq<AttemptRecord>, i: int) -> bool {
    timeline[i].kind is SizeOnly && i + 1 < timeline.len() && timeline[i + 1].kind
        is AnchorSizeOnly
}

/// Where nothing is forced, failure means that no attempt verified. The one exception is
/// a change of the size alone that fits, after which an anchor is made all the same.
pub proof fn failure_means_no_attempt_verified<H: DecisionHooks>(
    inputs: Inputs<H>,
    events: Seq<AxEvent>,
)
    requires
        follows_strategy(inputs, events),
        unforced(inputs),
        fell_short(progress_after(inputs, events)),
    ensures
        ({
            let timeline = progress_after(inputs, events).timeline;
            &&& timeline.len() > 0
            &&& timeline[0].kind is Primary
            &&& forall|i: int|
                0 <= i < timeline.len() ==> (#[trigger] timeline[i]).attempt_idx == i + 1 && (
                !timeline[i].verified || anchored_next(timeline, i))
        }),
{
    run_is_sound(inputs, events);
    unforced_run_goes_on_unverified(inputs, events);
    let end = progress_after(inputs, events);
    assert forall|i: int| 0 <= i < end.timeline.len() implies (
    #[trigger] end.timeline[i]).attempt_idx == i + 1 && (!end.timeline[i].verified || anchored_next(
        end.timeline,
        i,
    )) by {
        assert(followed_up(end, i));
    }
}

/// Whether an attempt that verified, if there is one, was followed up.
spec fn followed_up(p: Progress, i: int) -> bool {
    !p.timeline[i].verified || anchored_next(p.timeline, i) || (p.timeline[i].kind is SizeOnly && i
        + 1 == p.timeline.len() && p.stage is AnchorResized)
}

spec fn goes_on_unverified(p: Progress) -> bool {
    &&& p.stage is AnchorResized ==> p.timeline.len() > 0 && p.timeline.last().kind is SizeOnly
    &&& !(p.stage is Finished) ==> !p.retry_verified
    &&& !(p.stage is Finished) || fell_short(p) ==> forall|i: int|
        0 <= i < p.timeline.len() ==> #[trigger] followed_up(p, i)
}

proof fn unforced_run_goes_on_unverified<H: DecisionHooks>(inputs: Inputs<H>, events: Seq<AxEvent>)
    requires
        follows_strategy(inputs, events),
        unforced(inputs),
    ensures
        goes_on_unverified(progress_after(inputs, events)),
    decreases events.len(),
{
    if events.len() > 0 {
        let before = events.drop_last();
        unforced_run_goes_on_unverified(inputs, before);
        let p = progress_after(inputs, before);
        let q = progress_after(inputs, events);
        if !(q.stage is Finished) || fell_short(q) {
            assert forall|i: int| 0 <= i < q.timeline.len() implies #[trigger] followed_up(q, i) by {
                if i < p.timeline.len() {
                    assert(q.timeline[i] == p.timeline[i]);
                    assert(followed_up(p, i));
                }
            }
        }
    }
}

/// Attempts are numbered from one, no kind is tried twice, and kinds come in a
/// fixed order; so there are at most seven of them.
pub proof fn every_kind_is_tried_at_most_once<H: DecisionHooks>(
    inputs: Inputs<H>,
    events: Seq<AxEvent>,
)
    requires
        follows_strategy(inputs, events),
    ensures
        in_order(progress_after(inputs, events).timeline),
        progress_after(inputs, events).timeline.len() <= 7,
{
    run_is_sound(inputs, events);
    in_order_is_short(progress_after(inputs, events).timeline);
}

/// A limit of zero keeps its stage from running, and no more anchors are made
/// than are allowed.
pub proof fn limits_are_respected<H: DecisionHooks>(inputs: Inputs<H>, events: Seq<AxEvent>)
    requires
        follows_strategy(inputs, events),
    ensures
        ({
            let timeline = progress_after(inputs, events).timeline;
            &&& inputs.limits.max_axis_nudges == 0 ==> !made(timeline, AttemptKind::AxisNudge)
            &&& inputs.limits.max_opposite_order == 0 && !inputs.force ==> !made(
                timeline,
                AttemptKind::RetryOpposite,
            )
            &&& inputs.limits.max_anchor_attempts == 0 ==> !made(
                timeline,
                AttemptKind::AnchorSizeOnly,
            ) && !made(timeline, AttemptKind::AnchorLegal)
            &&& inputs.limits.max_anchor_attempts == 1 ==> !(made(
                timeline,
                AttemptKind::AnchorSizeOnly,
            ) && made(timeline, AttemptKind::AnchorLegal))
            &&& inputs.limits.max_fallback_runs == 0 ==> !made(
                timeline,
                AttemptKind::FallbackShrinkMoveGrow,
            )
        }),
{
    run_is_sound(inputs, events);
}

/// A placement that is limited to its first attempt ends after one request: in success
/// when the window is in place and no second attempt is to be forced, else in the failure
/// of the only attempt.
pub proof fn only_attempt_is_the_last<H: DecisionHooks>(inputs: Inputs<H>, events: Seq<AxEvent>)
    requires
        follows_strategy(inputs, events),
        inputs.pos_first_only,
    ensures
        events.len() <= 1,
        events.len() == 1 ==> (reply_of(events[0]) matches Ok((got, _)) ==> {
            let end = progress_after(inputs, events);
            &&& end.timeline.len() == 1
            &&& end.stage == Stage::Finished(
                if got.matches(inputs.target, inputs.eps as int) && !inputs.force {
                    Verdict::Verified(PlacementSuccess { final_rect: got, anchored_target: None })
                } else {
                    Verdict::OnlyAttemptFailed { got, visible_frame: inputs.frame_of(got) }
                },
            )
        }),
    decreases events.len(),
{
    if events.len() == 1 {
        assert(events.drop_last() =~= Seq::empty());
        assert(events.last() == events[0]);
    }
    if events.len() > 1 {
        let before = events.drop_last();
        only_attempt_is_the_last(inputs, before);
        assert(before.drop_last() =~= Seq::empty());
        assert(progress_after(inputs, before) == advanced(
            inputs,
            begun(inputs),
            reply_of(before.last()),
        ));
    }
}

/// A first attempt that verifies ends the placement, unless a second one is
/// forced.
pub proof fn verified_first_attempt_is_the_last<H: DecisionHooks>(
    inputs: Inputs<H>,
    events: Seq<AxEvent>,
    got: Rect,
    settle_ms: u64,
)
    requires
        follows_strategy(inputs, events),
        !inputs.force,
        events.len() > 0,
        reply_of(events[0]) == Ok::<(Rect, u64), Error>((got, settle_ms)),
        got.matches(inputs.target, inputs.eps as int),
    ensures
        events.len() == 1,
        progress_after(inputs, events).stage == Stage::Finished(
            Verdict::Verified(PlacementSuccess { final_rect: got, anchored_target: None }),
        ),
    decreases events.len(),
{
    if events.len() == 1 {
        assert(events.drop_last() =~= Seq::empty());
        assert(events.last() == events[0]);
    } else {
        verified_first_attempt_is_the_last(inputs, events.drop_last(), got, settle_ms);
    }
}

/// Whether the first answer put the window's origin in place but not its size.
pub open spec fn latched_at_once<H>(inputs: Inputs<H>, events: Seq<AxEvent>) -> bool {
    events.len() > 0 && (reply_of(events[0]) matches Ok((got, _)) && diffs_spec(
        got,
        inputs.target,
    ).origin_within(inputs.eps as int) && !diffs_spec(got, inputs.target).size_within(
        inputs.eps as int,
    ))
}

spec fn latch_kept<H>(inputs: Inputs<H>, p: Progress) -> bool {
    &&& !(p.stage is Primary)
    &&& !(p.stage is Opposite)
    &&& p.stage is Nudge ==> p.diffs.origin_within(inputs.eps as int) && !p.diffs.size_within(
        inputs.eps as int,
    )
    &&& forall|i: int|
        0 <= i < p.timeline.len() ==> (#[trigger] p.timeline[i]).kind != AttemptKind::RetryOpposite
}

proof fn latch_is_kept<H: DecisionHooks>(inputs: Inputs<H>, events: Seq<AxEvent>)
    requires
        follows_strategy(inputs, events),
        !inputs.force,
        latched_at_once(inputs, events),
    ensures
        latch_kept(inputs, progress_after(inputs, events)),
    decreases events.len(),
{
    let before = events.drop_last();
    let p = progress_after(inputs, before);
    let q = progress_after(inputs, events);
    if events.len() == 1 {
        assert(before =~= Seq::empty());
        assert(events.last() == events[0]);
        assert(p == begun(inputs));
    } else {
        assert(before[0] == events[0]);
        latch_is_kept(inputs, before);
    }
}

/// Once the first attempt has put the origin in place, the opposite order, which
/// would set the position again, is not tried unless it is forced.
pub proof fn latched_position_is_not_thrashed<H: DecisionHooks>(
    inputs: Inputs<H>,
    events: Seq<AxEvent>,
)
    requires
        follows_strategy(inputs, events),
        !inputs.force,
        latched_at_once(inputs, events),
    ensures
        !made(progress_after(inputs, events).timeline, AttemptKind::RetryOpposite),
{
    latch_is_kept(inputs, events);
}

/// Every request but those for anchors aims at the target itself.
pub proof fn requests_aim_at_the_target<H: DecisionHooks>(inputs: Inputs<H>, p: Progress)
    ensures
        match request(inputs, p) {
            PlaceCall::Apply { target, .. } => target == inputs.target || exists|seen: Rect|
                target == #[trigger] inputs.anchored(seen),
            PlaceCall::SizeOnly { width, height, .. } => width == inputs.target.w && height
                == inputs.target.h,
            PlaceCall::Nudge { target, .. } => target == inputs.target,
            PlaceCall::Fallback { target, .. } => target == inputs.target,
        },
{
    assert(inputs.anchored(p.got) == inputs.anchored(p.got));
}

/// Each request of a placement is the one that the answers before it call for, and no
/// request is made once the placement has ended.
pub proof fn requests_follow_from_the_answers<H: DecisionHooks>(
    inputs: Inputs<H>,
    events: Seq<AxEvent>,
    i: int,
)
    requires
        follows_strategy(inputs, events),
        0 <= i < events.len(),
    ensures
        ({
            let before = progress_after(inputs, events.take(i));
            &&& !(before.stage is Finished)
            &&& events[i] matches AxEvent::Placed { call, reply: _ } && call == request(
                inputs,
                before,
            )
            &&& progress_after(inputs, events.take(i + 1)) == advanced(
                inputs,
                before,
                reply_of(events[i]),
            )
        }),
    decreases events.len(),
{
    assert(events.take(i + 1).drop_last() =~= events.take(i));
    assert(events.take(i + 1).last() == events[i]);
    if i + 1 == events.len() {
        assert(events.take(i) =~= events.drop_last());
    } else {
        let shorter = events.drop_last();
        requests_follow_from_the_answers(inputs, shorter, i);
        assert(shorter.take(i) =~= events.take(i));
    }
}

} // verus!
