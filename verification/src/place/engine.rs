//! The placement pipeline: a fixed strategy of attempts that ends with the
//! window verified in place or with an account of why it is not.
//!
//! What the pipeline does next depends on the answers so far alone. [`begun`],
//! [`request`] and [`advanced`] state that strategy; [`PlacementEngine::execute`]
//! follows it through an adapter, call by call.

use vstd::prelude::*;
use vstd::string::*;

use crate::error::Error;
use crate::geom::{
    clamp_coord, clamp_flags, clamp_flags_spec, diffs_spec, max_int, one_axis_off,
    one_axis_off_spec, Axis, ClampFlags, Diffs, Rect, UNITS_PER_POINT,
};
use crate::place::adapter::{carries_on, AxAdapter, AxElem, AxEvent, PlaceCall};
use crate::place::common::{
    choose_initial_order, position_first, AttemptRecord, AttemptTimeline, DecisionHooks,
    FallbackInvocation, FallbackTrigger, PlacementContext, RetryLimits, SettleTiming,
};
use crate::place::metrics::{
    AttemptKind, AttemptOrder, PlacementCounters, PlacementCountersSnapshot,
};
use crate::screen::ScreenLayout;

verus! {

/// A placement that verified.
#[derive(Debug, Clone, Copy, PartialEq, Eq, Structural)]
pub struct PlacementSuccess {
    /// The rectangle that was observed last.
    pub final_rect: Rect,
    /// The anchored rectangle, when the window verified against that.
    pub anchored_target: Option<Rect>,
}

/// What was observed of a placement that did not verify.
#[derive(Debug, Clone)]
pub struct PlacementFailureContext {
    /// The rectangle that was observed last. A nudge that leaves the origin off, and an
    /// anchor of a changed size that misses, are passed over.
    pub got: Rect,
    /// Edges on which it met the visible frame.
    pub clamped: ClampFlags,
    /// The visible frame that it was compared with.
    pub visible_frame: Rect,
    /// The attempts that were made.
    pub timeline: AttemptTimeline,
}

/// How a placement ended.
#[derive(Debug, Clone)]
pub enum PlacementOutcome {
    /// The window is in place.
    Verified(PlacementSuccess),
    /// Only the first attempt was allowed, and it did not verify or a second one was
    /// to be forced.
    PosFirstOnlyFailure(PlacementFailureContext),
    /// Every attempt was made, and the last one did not verify.
    VerificationFailure(PlacementFailureContext),
}

/// The grid cell that a placement aims at.
#[derive(Debug, Clone, Copy, PartialEq, Eq, Structural)]
pub struct PlacementGrid {
    /// Columns of the grid.
    pub cols: u32,
    /// Rows of the grid.
    pub rows: u32,
    /// Column of the cell.
    pub col: u32,
    /// Row of the cell.
    pub row: u32,
}

/// What stays the same during one placement.
#[derive(Debug, Clone, Copy)]
pub struct PlacementEngineConfig<'a> {
    /// The operation on whose behalf the window is placed.
    pub label: &'a str,
    /// The grid cell that is aimed at.
    pub grid: PlacementGrid,
}

/// The inputs of a placement, settable attributes included.
pub struct Inputs<H> {
    /// The operation on whose behalf the window is placed.
    pub label: Seq<char>,
    /// The window.
    pub win: AxElem,
    /// The rectangle to be reached.
    pub target: Rect,
    /// The visible frame that the target was resolved in.
    pub visible_frame: Rect,
    /// The grid cell that is aimed at.
    pub grid: PlacementGrid,
    /// Tolerance.
    pub eps: i64,
    /// Pauses.
    pub timing: SettleTiming,
    /// How often each stage may run.
    pub limits: RetryLimits,
    /// Whether the opposite order is tried even after success.
    pub force: bool,
    /// Whether only the first attempt is allowed.
    pub pos_first_only: bool,
    /// Decisions left to the caller.
    pub hooks: H,
    /// The screens of the desktop.
    pub screens: ScreenLayout,
    /// Whether the position can be set.
    pub can_pos: Option<bool>,
    /// Whether the size can be set.
    pub can_size: Option<bool>,
}

/// How a placement ended, its attempts aside.
pub enum Verdict {
    /// The window is in place.
    Verified(PlacementSuccess),
    /// Only the first attempt was allowed, and it did not verify or a second one was
    /// to be forced.
    OnlyAttemptFailed {
        /// The rectangle that was observed.
        got: Rect,
        /// The visible frame that it was compared with.
        visible_frame: Rect,
    },
    /// Every attempt was made, and the last one did not verify.
    Failed {
        /// The rectangle that was observed last.
        got: Rect,
        /// The visible frame that it was compared with.
        visible_frame: Rect,
    },
    /// The accessibility layer reported an error.
    Aborted(Error),
}

/// The next thing to do.
pub enum Stage {
    /// First attempt.
    Primary,
    /// Nudge of one axis.
    Nudge(Axis),
    /// Second attempt, in the opposite order.
    Opposite,
    /// Shrink, move and grow, asked for outright.
    ForcedFallback,
    /// Change of the size alone.
    SizeOnly,
    /// Anchor of the size that the change led to.
    AnchorResized,
    /// Anchor of the size that was observed last.
    AnchorLegal,
    /// Shrink, move and grow, after every other attempt failed.
    LastFallback,
    /// Nothing.
    Finished(Verdict),
}

/// How far a placement has come.
pub struct Progress {
    /// The next thing to do.
    pub stage: Stage,
    /// The rectangle that later stages start from.
    pub got: Rect,
    /// The visible frame of that rectangle.
    pub vf: Rect,
    /// Its distances from the target when its position was last set.
    pub diffs: Diffs,
    /// Whether the opposite order put the window in place.
    pub retry_verified: bool,
    /// Anchors still allowed.
    pub anchors_left: u32,
    /// The attempts so far.
    pub timeline: Seq<AttemptRecord>,
}

impl<H> Inputs<H> {
    /// Whether the first attempt sets position before size.
    pub open spec fn pos_first(self) -> bool {
        position_first(self.can_pos, self.can_size)
    }

    /// Whether the opposite order may be tried.
    pub open spec fn opposite_allowed(self) -> bool {
        self.force || self.limits.max_opposite_order > 0
    }

    /// The target with the size that a window has taken: aligned with the outer
    /// edges of the grid where the cell touches them, with its own origin
    /// elsewhere.
    pub open spec fn anchored(self, observed: Rect) -> Rect {
        let w = max_int(observed.w as int, UNITS_PER_POINT as int);
        let h = max_int(observed.h as int, UNITS_PER_POINT as int);
        Rect {
            x: if self.grid.cols > 1 && self.grid.col == self.grid.cols - 1 {
                clamp_coord(self.target.right_edge() - w) as i64
            } else {
                self.target.x
            },
            y: if self.grid.rows > 1 && self.grid.row == self.grid.rows - 1 {
                clamp_coord(self.target.top_edge() - h) as i64
            } else {
                self.target.y
            },
            w: w as i64,
            h: h as i64,
        }
    }

    /// The visible frame of the screen that a rectangle's centre lies on.
    pub open spec fn frame_of(self, got: Rect) -> Rect {
        self.screens.visible_frame(got.center_spec())
    }
}

impl Progress {
    /// The attempts with one more at the end.
    pub open spec fn noted(
        self,
        kind: AttemptKind,
        order: AttemptOrder,
        settle_ms: u64,
        verified: bool,
    ) -> Progress {
        Progress {
            timeline: self.timeline.push(
                AttemptRecord {
                    kind,
                    order,
                    attempt_idx: (self.timeline.len() + 1) as u32,
                    settle_ms,
                    verified,
                },
            ),
            ..self
        }
    }

    /// The placement has ended.
    pub open spec fn ended(self, verdict: Verdict) -> Progress {
        Progress { stage: Stage::Finished(verdict), ..self }
    }

    /// The window is in place.
    pub open spec fn succeeded(self, got: Rect, anchored_target: Option<Rect>) -> Progress {
        self.ended(Verdict::Verified(PlacementSuccess { final_rect: got, anchored_target }))
    }

    /// Continue with another stage.
    pub open spec fn at(self, stage: Stage) -> Progress {
        Progress { stage, ..self }
    }
}

/// A placement before its first attempt.
pub open spec fn begun<H>(inputs: Inputs<H>) -> Progress {
    Progress {
        stage: Stage::Primary,
        got: inputs.target,
        vf: inputs.visible_frame,
        diffs: Diffs { x: 0, y: 0, w: 0, h: 0 },
        retry_verified: false,
        anchors_left: inputs.limits.max_anchor_attempts,
        timeline: Seq::empty(),
    }
}

/// The order recorded for an attempt that sets position and size.
pub open spec fn order_of(pos_first: bool) -> AttemptOrder {
    if pos_first {
        AttemptOrder::PosThenSize
    } else {
        AttemptOrder::SizeThenPos
    }
}

/// The request that a stage makes.
pub open spec fn request<H>(inputs: Inputs<H>, p: Progress) -> PlaceCall {
    match p.stage {
        Stage::Primary => PlaceCall::Apply {
            label: inputs.label,
            win: inputs.win,
            target: inputs.target,
            pos_first: inputs.pos_first(),
            eps: inputs.eps,
            timing: inputs.timing,
        },
        Stage::Nudge(axis) => PlaceCall::Nudge {
            label: inputs.label,
            win: inputs.win,
            target: inputs.target,
            axis,
            eps: inputs.eps,
            timing: inputs.timing,
        },
        Stage::Opposite => PlaceCall::Apply {
            label: inputs.label,
            win: inputs.win,
            target: inputs.target,
            pos_first: !inputs.pos_first(),
            eps: inputs.eps,
            timing: inputs.timing,
        },
        Stage::SizeOnly => PlaceCall::SizeOnly {
            label: inputs.label + ":size-only"@,
            win: inputs.win,
            width: inputs.target.w,
            height: inputs.target.h,
            eps: inputs.eps,
            timing: inputs.timing,
        },
        Stage::AnchorResized | Stage::AnchorLegal => PlaceCall::Apply {
            label: inputs.label,
            win: inputs.win,
            target: inputs.anchored(p.got),
            pos_first: true,
            eps: inputs.eps,
            timing: inputs.timing,
        },
        Stage::ForcedFallback | Stage::LastFallback | Stage::Finished(_) => PlaceCall::Fallback {
            label: inputs.label,
            win: inputs.win,
            target: inputs.target,
            eps: inputs.eps,
            timing: inputs.timing,
        },
    }
}

/// Whether shrink, move and grow runs at a stage.
pub open spec fn falls_back<H: DecisionHooks>(
    inputs: Inputs<H>,
    p: Progress,
    trigger: FallbackTrigger,
) -> bool {
    inputs.limits.max_fallback_runs > 0 && inputs.hooks.falls_back(
        trigger,
        inputs.target,
        inputs.visible_frame,
        p.timeline,
    )
}

/// Every other attempt has been made, and shrink, move and grow may be tried.
pub open spec fn toward_last<H: DecisionHooks>(inputs: Inputs<H>, p: Progress) -> Progress {
    if falls_back(inputs, p, FallbackTrigger::Final) {
        p.at(Stage::LastFallback)
    } else {
        p.ended(Verdict::Failed { got: p.got, visible_frame: p.vf })
    }
}

/// The legal size is anchored while anchors are left.
pub open spec fn toward_anchor<H: DecisionHooks>(inputs: Inputs<H>, p: Progress) -> Progress {
    if p.anchors_left > 0 {
        p.at(Stage::AnchorLegal)
    } else {
        toward_last(inputs, p)
    }
}

/// The position has been set as well as it could be: success counts now, and a
/// latched position is kept while the size is changed.
pub open spec fn toward_size<H: DecisionHooks>(inputs: Inputs<H>, p: Progress) -> Progress {
    if p.retry_verified {
        p.succeeded(p.got, None)
    } else if p.diffs.origin_within(inputs.eps as int) && inputs.can_size != Some(false) {
        p.at(Stage::SizeOnly)
    } else {
        toward_anchor(inputs, p)
    }
}

/// Shrink, move and grow may be asked for outright.
pub open spec fn toward_forced<H: DecisionHooks>(inputs: Inputs<H>, p: Progress) -> Progress {
    if falls_back(inputs, p, FallbackTrigger::Forced) {
        p.at(Stage::ForcedFallback)
    } else {
        toward_size(inputs, p)
    }
}

/// The opposite order is tried when it is forced, or when it is allowed and the
/// position has not latched with only the size off.
pub open spec fn toward_opposite<H: DecisionHooks>(inputs: Inputs<H>, p: Progress) -> Progress {
    let latched = p.diffs.origin_within(inputs.eps as int) && !p.diffs.size_within(
        inputs.eps as int,
    );
    if inputs.opposite_allowed() && (inputs.force || !latched) {
        p.at(Stage::Opposite)
    } else {
        toward_forced(inputs, p)
    }
}

/// The end of a run of shrink, move and grow.
pub open spec fn after_fallback<H>(
    inputs: Inputs<H>,
    p: Progress,
    got: Rect,
    settle_ms: u64,
) -> Progress {
    let verified = got.matches(inputs.target, inputs.eps as int);
    let q = p.noted(
        AttemptKind::FallbackShrinkMoveGrow,
        AttemptOrder::Fallback,
        settle_ms,
        verified,
    );
    if verified {
        q.succeeded(got, None)
    } else {
        q.ended(Verdict::Failed { got, visible_frame: inputs.frame_of(got) })
    }
}

/// The progress after an observation.
pub open spec fn observed<H: DecisionHooks>(
    inputs: Inputs<H>,
    p: Progress,
    got: Rect,
    settle_ms: u64,
) -> Progress {
    let eps = inputs.eps as int;
    let target = inputs.target;
    let verified = got.matches(target, eps);
    let diffs = diffs_spec(got, target);
    match p.stage {
        Stage::Primary => {
            let q = Progress {
                got,
                vf: inputs.frame_of(got),
                diffs,
                ..p
            }.noted(AttemptKind::Primary, order_of(inputs.pos_first()), settle_ms, verified);
            if verified && !inputs.force {
                q.succeeded(got, None)
            } else if inputs.pos_first_only {
                q.ended(Verdict::OnlyAttemptFailed { got, visible_frame: q.vf })
            } else {
                match one_axis_off_spec(diffs, eps) {
                    Some(axis) if inputs.limits.max_axis_nudges > 0 => q.at(Stage::Nudge(axis)),
                    _ => toward_opposite(inputs, q),
                }
            }
        },
        Stage::Nudge(axis) => {
            let q = p.noted(
                AttemptKind::AxisNudge,
                match axis {
                    Axis::Horizontal => AttemptOrder::AxisHorizontal,
                    Axis::Vertical => AttemptOrder::AxisVertical,
                },
                settle_ms,
                verified,
            );
            if verified {
                q.succeeded(got, None)
            } else if diffs.origin_within(eps) {
                toward_opposite(inputs, Progress { got, vf: inputs.frame_of(got), diffs, ..q })
            } else {
                toward_opposite(inputs, q)
            }
        },
        Stage::Opposite => {
            let q = Progress {
                got,
                vf: inputs.frame_of(got),
                diffs,
                retry_verified: verified,
                ..p
            }.noted(
                AttemptKind::RetryOpposite,
                order_of(!inputs.pos_first()),
                settle_ms,
                verified,
            );
            toward_forced(inputs, q)
        },
        Stage::SizeOnly => {
            let q = Progress { got, ..p }.noted(
                AttemptKind::SizeOnly,
                AttemptOrder::SizeOnly,
                settle_ms,
                verified,
            );
            if q.anchors_left > 0 {
                Progress { anchors_left: (q.anchors_left - 1) as u32, ..q }.at(
                    Stage::AnchorResized,
                )
            } else if verified {
                q.succeeded(got, None)
            } else {
                toward_anchor(inputs, q)
            }
        },
        Stage::AnchorResized => {
            let anchored = inputs.anchored(p.got);
            let in_place = got.matches(anchored, eps);
            let q = p.noted(
                AttemptKind::AnchorSizeOnly,
                AttemptOrder::Anchor,
                settle_ms,
                in_place,
            );
            if in_place {
                q.succeeded(got, Some(anchored))
            } else {
                toward_anchor(inputs, q)
            }
        },
        Stage::AnchorLegal => {
            let anchored = inputs.anchored(p.got);
            let in_place = got.matches(anchored, eps);
            let q = p.noted(AttemptKind::AnchorLegal, AttemptOrder::Anchor, settle_ms, in_place);
            if in_place {
                q.succeeded(got, Some(anchored))
            } else {
                toward_last(inputs, Progress { got, vf: inputs.frame_of(got), ..q })
            }
        },
        Stage::ForcedFallback | Stage::LastFallback => after_fallback(inputs, p, got, settle_ms),
        Stage::Finished(_) => p,
    }
}

/// The progress after an answer. An error ends the placement, except that a
/// failed change of the size alone is passed over.
pub open spec fn advanced<H: DecisionHooks>(
    inputs: Inputs<H>,
    p: Progress,
    reply: Result<(Rect, u64), Error>,
) -> Progress {
    match reply {
        Ok((got, settle_ms)) => observed(inputs, p, got, settle_ms),
        Err(error) => match p.stage {
            Stage::SizeOnly => toward_anchor(inputs, p),
            Stage::Finished(_) => p,
            _ => p.ended(Verdict::Aborted(error)),
        },
    }
}

/// The answers in a series of exchanges.
pub open spec fn reply_of(event: AxEvent) -> Result<(Rect, u64), Error> {
    match event {
        AxEvent::Placed { call: _, reply } => reply,
        _ => Err(Error::WindowGone),
    }
}

/// The progress after a series of exchanges.
pub open spec fn progress_after<H: DecisionHooks>(
    inputs: Inputs<H>,
    events: Seq<AxEvent>,
) -> Progress
    decreases events.len(),
{
    if events.len() == 0 {
        begun(inputs)
    } else {
        advanced(inputs, progress_after(inputs, events.drop_last()), reply_of(events.last()))
    }
}

/// Whether each exchange makes the request that the answers before it call for.
pub open spec fn follows_strategy<H: DecisionHooks>(
    inputs: Inputs<H>,
    events: Seq<AxEvent>,
) -> bool
    decreases events.len(),
{
    events.len() == 0 || {
        let before = progress_after(inputs, events.drop_last());
        &&& follows_strategy(inputs, events.drop_last())
        &&& !(before.stage is Finished)
        &&& events.last() matches AxEvent::Placed { call, reply: _ } && call == request(
            inputs,
            before,
        )
    }
}

/// The inputs of a placement, given what can be set.
pub open spec fn inputs_of<H>(
    ctx: PlacementContext<H>,
    config: PlacementEngineConfig<'_>,
    can_pos: Option<bool>,
    can_size: Option<bool>,
) -> Inputs<H> {
    Inputs {
        label: config.label@,
        win: ctx.win,
        target: ctx.target,
        visible_frame: ctx.visible_frame,
        grid: config.grid,
        eps: ctx.options@.tuning.epsilon,
        timing: ctx.options@.tuning.settle_timing,
        limits: ctx.options@.retry_limits,
        force: ctx.options@.force_second_attempt,
        pos_first_only: ctx.options@.pos_first_only,
        hooks: ctx.options@.hooks,
        screens: ctx.screens,
        can_pos,
        can_size,
    }
}

impl PlacementFailureContext {
    /// Whether the context accounts for a window observed at `got`, compared
    /// with `vf`, after the given attempts.
    pub open spec fn accounts_for(
        self,
        got: Rect,
        vf: Rect,
        eps: int,
        timeline: Seq<AttemptRecord>,
    ) -> bool {
        &&& self.got == got
        &&& self.visible_frame == vf
        &&& self.clamped == clamp_flags_spec(got, vf, eps)
        &&& self.timeline@ == timeline
    }
}

/// Whether a result reports how a placement ended.
pub open spec fn reports(
    result: Result<PlacementOutcome, Error>,
    end: Progress,
    eps: int,
) -> bool {
    match end.stage {
        Stage::Finished(verdict) => match verdict {
            Verdict::Verified(success) => result == Ok::<PlacementOutcome, Error>(
                PlacementOutcome::Verified(success),
            ),
            Verdict::OnlyAttemptFailed { got, visible_frame } => {
                &&& result matches Ok(outcome)
                &&& outcome matches PlacementOutcome::PosFirstOnlyFailure(failure)
                &&& failure.accounts_for(got, visible_frame, eps, end.timeline)
            },
            Verdict::Failed { got, visible_frame } => {
                &&& result matches Ok(outcome)
                &&& outcome matches PlacementOutcome::VerificationFailure(failure)
                &&& failure.accounts_for(got, visible_frame, eps, end.timeline)
            },
            Verdict::Aborted(error) => result == Err::<PlacementOutcome, Error>(error),
        },
        _ => false,
    }
}

/// Whether a placement ended without the window in place.
pub open spec fn fell_short(end: Progress) -> bool {
    end.stage matches Stage::Finished(verdict) && (verdict is OnlyAttemptFailed
        || verdict is Failed)
}

/// The counters after a placement that ended this way.
pub open spec fn counters_after(
    counters: PlacementCountersSnapshot,
    end: Progress,
) -> PlacementCountersSnapshot {
    let tallied = counters.tallied(end.timeline);
    if fell_short(end) {
        tallied.failed()
    } else {
        tallied
    }
}

/// The state of a running placement.
struct Run<'a, H> {
    ctx: &'a PlacementContext<H>,
    config: PlacementEngineConfig<'a>,
    can_pos: Option<bool>,
    can_size: Option<bool>,
    stage: Stage,
    got: Rect,
    vf: Rect,
    diffs: Diffs,
    retry_verified: bool,
    anchors_left: u32,
    timeline: AttemptTimeline,
}

impl<'a, H> Run<'a, H> {
    spec fn inputs(self) -> Inputs<H> {
        inputs_of(*self.ctx, self.config, self.can_pos, self.can_size)
    }

    spec fn progress(self) -> Progress {
        Progress {
            stage: self.stage,
            got: self.got,
            vf: self.vf,
            diffs: self.diffs,
            retry_verified: self.retry_verified,
            anchors_left: self.anchors_left,
            timeline: self.timeline@,
        }
    }

    /// Note an attempt in the timeline and in the counters.
    fn log_and_record_attempt(
        &mut self,
        counters: &mut PlacementCounters,
        kind: AttemptKind,
        order: AttemptOrder,
        settle_ms: u64,
        verified: bool,
    )
        requires
            old(self).timeline@.len() < 100,
        ensures
            final(self).inputs() == old(self).inputs(),
            final(self).progress() == old(self).progress().noted(
                kind,
                order,
                settle_ms,
                verified,
            ),
            final(counters)@ == old(counters)@.counted(kind, settle_ms, verified),
    {
        let idx: u32 = self.timeline.len() as u32 + 1;
        self.timeline.push(
            AttemptRecord { kind, order, attempt_idx: idx, settle_ms, verified },
        );
        counters.record_attempt(kind, settle_ms, verified);
    }

    fn is_finished(&self) -> (r: bool)
        ensures
            r == self.progress().stage is Finished,
    {
        matches!(self.stage, Stage::Finished(_))
    }

    fn eps(&self) -> (r: i64)
        ensures
            r == self.inputs().eps,
    {
        self.ctx.tuning().epsilon()
    }

    fn frame_of(&self, got: &Rect) -> (r: Rect)
        ensures
            r == self.inputs().frame_of(*got),
    {
        self.ctx.screens.visible_frame_containing_point(got.center())
    }

    /// The target with the size that a window has taken.
    fn anchor_of(&self, observed: &Rect) -> (r: Rect)
        ensures
            r == self.inputs().anchored(*observed),
    {
        let grid = self.config.grid;
        let target = self.ctx.target;
        let w: i64 = if observed.w >= UNITS_PER_POINT {
            observed.w
        } else {
            UNITS_PER_POINT
        };
        let h: i64 = if observed.h >= UNITS_PER_POINT {
            observed.h
        } else {
            UNITS_PER_POINT
        };
        let x: i64 = if grid.cols > 1 && grid.col == grid.cols - 1 {
            to_coord(target.right() - w as i128)
        } else {
            target.x
        };
        let y: i64 = if grid.rows > 1 && grid.row == grid.rows - 1 {
            to_coord(target.top() - h as i128)
        } else {
            target.y
        };
        Rect { x, y, w, h }
    }
}

/// The coordinate nearest to `v`.
fn to_coord(v: i128) -> (r: i64)
    ensures
        r == clamp_coord(v as int),
{
    if v > i64::MAX as i128 {
        i64::MAX
    } else if v < i64::MIN as i128 {
        i64::MIN
    } else {
        v as i64
    }
}

impl<'a, H: DecisionHooks> Run<'a, H> {
    fn falls_back(&self, trigger: FallbackTrigger) -> (r: bool)
        ensures
            r == falls_back(self.inputs(), self.progress(), trigger),
    {
        self.ctx.options.retry_limits().max_fallback_runs > 0
            && self.ctx.options.hooks().should_run_fallback(
            &FallbackInvocation {
                trigger,
                target: self.ctx.target,
                visible_frame: self.ctx.visible_frame,
                timeline: &self.timeline,
            },
        )
    }

    fn fail(&mut self, got: Rect, visible_frame: Rect)
        ensures
            final(self).inputs() == old(self).inputs(),
            final(self).progress() == old(self).progress().ended(
                Verdict::Failed { got, visible_frame },
            ),
    {
        self.stage = Stage::Finished(Verdict::Failed { got, visible_frame });
    }

    fn go_last(&mut self)
        ensures
            final(self).inputs() == old(self).inputs(),
            final(self).progress() == toward_last(old(self).inputs(), old(self).progress()),
    {
        if self.falls_back(FallbackTrigger::Final) {
            self.stage = Stage::LastFallback;
        } else {
            self.fail(self.got, self.vf);
        }
    }

    fn go_anchor(&mut self)
        ensures
            final(self).inputs() == old(self).inputs(),
            final(self).progress() == toward_anchor(old(self).inputs(), old(self).progress()),
    {
        if self.anchors_left > 0 {
            self.stage = Stage::AnchorLegal;
        } else {
            self.go_last();
        }
    }

    fn go_size(&mut self)
        ensures
            final(self).inputs() == old(self).inputs(),
            final(self).progress() == toward_size(old(self).inputs(), old(self).progress()),
    {
        if self.retry_verified {
            self.stage = Stage::Finished(
                Verdict::Verified(
                    PlacementSuccess { final_rect: self.got, anchored_target: None },
                ),
            );
        } else if self.diffs.origin_ok(self.eps()) && self.can_size != Some(false) {
            self.stage = Stage::SizeOnly;
        } else {
            self.go_anchor();
        }
    }

    fn go_forced(&mut self)
        ensures
            final(self).inputs() == old(self).inputs(),
            final(self).progress() == toward_forced(old(self).inputs(), old(self).progress()),
    {
        if self.falls_back(FallbackTrigger::Forced) {
            self.stage = Stage::ForcedFallback;
        } else {
            self.go_size();
        }
    }

    fn go_opposite(&mut self)
        ensures
            final(self).inputs() == old(self).inputs(),
            final(self).progress() == toward_opposite(old(self).inputs(), old(self).progress()),
    {
        let eps: i64 = self.eps();
        let force = self.ctx.options.force_second_attempt();
        let allowed = force || self.ctx.options.retry_limits().max_opposite_order > 0;
        let latched = self.diffs.origin_ok(eps) && !self.diffs.size_ok(eps);
        if allowed && (force || !latched) {
            self.stage = Stage::Opposite;
        } else {
            self.go_forced();
        }
    }

    fn succeed(&mut self, got: Rect, anchored_target: Option<Rect>)
        ensures
            final(self).inputs() == old(self).inputs(),
            final(self).progress() == old(self).progress().succeeded(got, anchored_target),
    {
        self.stage = Stage::Finished(
            Verdict::Verified(PlacementSuccess { final_rect: got, anchored_target }),
        );
    }

    fn after_primary(&mut self, counters: &mut PlacementCounters, got: Rect, settle_ms: u64)
        requires
            old(self).stage is Primary,
            old(self).timeline@.len() < 100,
        ensures
            final(self).inputs() == old(self).inputs(),
            final(self).progress() == observed(
                old(self).inputs(),
                old(self).progress(),
                got,
                settle_ms,
            ),
            final(counters)@ == old(counters)@.counted(
                AttemptKind::Primary,
                settle_ms,
                got.matches(old(self).inputs().target, old(self).inputs().eps as int),
            ),
    {
        let eps: i64 = self.eps();
        let target = self.ctx.target;
        let verified = got.approx_eq(&target, eps);
        let pos_first = choose_initial_order(self.can_pos, self.can_size);
        self.got = got;
        self.vf = self.frame_of(&got);
        self.diffs = got.diffs(&target);
        self.log_and_record_attempt(
            counters,
            AttemptKind::Primary,
            if pos_first {
                AttemptOrder::PosThenSize
            } else {
                AttemptOrder::SizeThenPos
            },
            settle_ms,
            verified,
        );
        if verified && !self.ctx.options.force_second_attempt() {
            self.succeed(got, None);
        } else if self.ctx.options.pos_first_only() {
            self.stage = Stage::Finished(
                Verdict::OnlyAttemptFailed { got, visible_frame: self.vf },
            );
        } else {
            match one_axis_off(self.diffs, eps) {
                Some(axis) => {
                    if self.ctx.options.retry_limits().max_axis_nudges > 0 {
                        self.stage = Stage::Nudge(axis);
                    } else {
                        self.go_opposite();
                    }
                },
                None => self.go_opposite(),
            }
        }
    }

    fn after_nudge(
        &mut self,
        counters: &mut PlacementCounters,
        axis: Axis,
        got: Rect,
        settle_ms: u64,
    )
        requires
            old(self).stage == Stage::Nudge(axis),
            old(self).timeline@.len() < 100,
        ensures
            final(self).inputs() == old(self).inputs(),
            final(self).progress() == observed(
                old(self).inputs(),
                old(self).progress(),
                got,
                settle_ms,
            ),
            final(counters)@ == old(counters)@.counted(
                AttemptKind::AxisNudge,
                settle_ms,
                got.matches(old(self).inputs().target, old(self).inputs().eps as int),
            ),
    {
        let eps: i64 = self.eps();
        let target = self.ctx.target;
        let verified = got.approx_eq(&target, eps);
        let order = match axis {
            Axis::Horizontal => AttemptOrder::AxisHorizontal,
            Axis::Vertical => AttemptOrder::AxisVertical,
        };
        self.log_and_record_attempt(counters, AttemptKind::AxisNudge, order, settle_ms, verified);
        if verified {
            self.succeed(got, None);
        } else {
            let diffs = got.diffs(&target);
            if diffs.origin_ok(eps) {
                self.got = got;
                self.vf = self.frame_of(&got);
                self.diffs = diffs;
            }
            self.go_opposite();
        }
    }

    fn after_opposite(&mut self, counters: &mut PlacementCounters, got: Rect, settle_ms: u64)
        requires
            old(self).stage is Opposite,
            old(self).timeline@.len() < 100,
        ensures
            final(self).inputs() == old(self).inputs(),
            final(self).progress() == observed(
                old(self).inputs(),
                old(self).progress(),
                got,
                settle_ms,
            ),
            final(counters)@ == old(counters)@.counted(
                AttemptKind::RetryOpposite,
                settle_ms,
                got.matches(old(self).inputs().target, old(self).inputs().eps as int),
            ),
    {
        let eps: i64 = self.eps();
        let target = self.ctx.target;
        let verified = got.approx_eq(&target, eps);
        let pos_first = choose_initial_order(self.can_pos, self.can_size);
        self.got = got;
        self.vf = self.frame_of(&got);
        self.diffs = got.diffs(&target);
        self.retry_verified = verified;
        self.log_and_record_attempt(
            counters,
            AttemptKind::RetryOpposite,
            if pos_first {
                AttemptOrder::SizeThenPos
            } else {
                AttemptOrder::PosThenSize
            },
            settle_ms,
            verified,
        );
        self.go_forced();
    }

    fn after_size_only(&mut self, counters: &mut PlacementCounters, got: Rect, settle_ms: u64)
        requires
            old(self).stage is SizeOnly,
            old(self).timeline@.len() < 100,
        ensures
            final(self).inputs() == old(self).inputs(),
            final(self).progress() == observed(
                old(self).inputs(),
                old(self).progress(),
                got,
                settle_ms,
            ),
            final(counters)@ == old(counters)@.counted(
                AttemptKind::SizeOnly,
                settle_ms,
                got.matches(old(self).inputs().target, old(self).inputs().eps as int),
            ),
    {
        let verified = got.approx_eq(&self.ctx.target, self.eps());
        self.got = got;
        self.log_and_record_attempt(
            counters,
            AttemptKind::SizeOnly,
            AttemptOrder::SizeOnly,
            settle_ms,
            verified,
        );
        if self.anchors_left > 0 {
            self.anchors_left = self.anchors_left - 1;
            self.stage = Stage::AnchorResized;
        } else if verified {
            self.succeed(got, None);
        } else {
            self.go_anchor();
        }
    }

    fn after_anchor_resized(
        &mut self,
        counters: &mut PlacementCounters,
        got: Rect,
        settle_ms: u64,
    )
        requires
            old(self).stage is AnchorResized,
            old(self).timeline@.len() < 100,
        ensures
            final(self).inputs() == old(self).inputs(),
            final(self).progress() == observed(
                old(self).inputs(),
                old(self).progress(),
                got,
                settle_ms,
            ),
            final(counters)@ == old(counters)@.counted(
                AttemptKind::AnchorSizeOnly,
                settle_ms,
                got.matches(
                    old(self).inputs().anchored(old(self).got),
                    old(self).inputs().eps as int,
                ),
            ),
    {
        let anchored = self.anchor_of(&self.got);
        let in_place = got.approx_eq(&anchored, self.eps());
        self.log_and_record_attempt(
            counters,
            AttemptKind::AnchorSizeOnly,
            AttemptOrder::Anchor,
            settle_ms,
            in_place,
        );
        if in_place {
            self.succeed(got, Some(anchored));
        } else {
            self.go_anchor();
        }
    }

    fn after_anchor_legal(&mut self, counters: &mut PlacementCounters, got: Rect, settle_ms: u64)
        requires
            old(self).stage is AnchorLegal,
            old(self).timeline@.len() < 100,
        ensures
            final(self).inputs() == old(self).inputs(),
            final(self).progress() == observed(
                old(self).inputs(),
                old(self).progress(),
                got,
                settle_ms,
            ),
            final(counters)@ == old(counters)@.counted(
                AttemptKind::AnchorLegal,
                settle_ms,
                got.matches(
                    old(self).inputs().anchored(old(self).got),
                    old(self).inputs().eps as int,
                ),
            ),
    {
        let anchored = self.anchor_of(&self.got);
        let in_place = got.approx_eq(&anchored, self.eps());
        self.log_and_record_attempt(
            counters,
            AttemptKind::AnchorLegal,
            AttemptOrder::Anchor,
            settle_ms,
            in_place,
        );
        if in_place {
            self.succeed(got, Some(anchored));
        } else {
            self.got = got;
            self.vf = self.frame_of(&got);
            self.go_last();
        }
    }

    fn after_fallback(&mut self, counters: &mut PlacementCounters, got: Rect, settle_ms: u64)
        requires
            old(self).stage is ForcedFallback || old(self).stage is LastFallback,
            old(self).timeline@.len() < 100,
        ensures
            final(self).inputs() == old(self).inputs(),
            final(self).progress() == observed(
                old(self).inputs(),
                old(self).progress(),
                got,
                settle_ms,
            ),
            final(counters)@ == old(counters)@.counted(
                AttemptKind::FallbackShrinkMoveGrow,
                settle_ms,
                got.matches(old(self).inputs().target, old(self).inputs().eps as int),
            ),
    {
        let verified = got.approx_eq(&self.ctx.target, self.eps());
        self.log_and_record_attempt(
            counters,
            AttemptKind::FallbackShrinkMoveGrow,
            AttemptOrder::Fallback,
            settle_ms,
            verified,
        );
        if verified {
            self.succeed(got, None);
        } else {
            let vf = self.frame_of(&got);
            self.fail(got, vf);
        }
    }

    /// Make the request of the current stage.
    fn issue<A: AxAdapter>(&self, adapter: &mut A) -> (r: Result<(Rect, u64), Error>)
        requires
            !(self.stage is Finished),
        ensures
            final(adapter).log() == old(adapter).log().push(
                AxEvent::Placed { call: request(self.inputs(), self.progress()), reply: r },
            ),
            carries_on(*old(adapter), *final(adapter)),
    {
        let label = self.config.label;
        let win = self.ctx.win;
        let target = self.ctx.target;
        let eps: i64 = self.eps();
        let timing = self.ctx.tuning().settle_timing();
        let pos_first = choose_initial_order(self.can_pos, self.can_size);
        match &self.stage {
            Stage::Primary => adapter.apply_and_wait(label, win, &target, pos_first, eps, timing),
            Stage::Nudge(axis) => adapter.nudge_axis_pos_and_wait(
                label,
                win,
                &target,
                *axis,
                eps,
                timing,
            ),
            Stage::Opposite => adapter.apply_and_wait(label, win, &target, !pos_first, eps, timing),
            Stage::SizeOnly => {
                let mut size_label = label.to_owned();
                size_label.append(":size-only");
                adapter.apply_size_only_and_wait(
                    size_label.as_str(),
                    win,
                    target.w,
                    target.h,
                    eps,
                    timing,
                )
            },
            Stage::AnchorResized | Stage::AnchorLegal => {
                let anchored = self.anchor_of(&self.got);
                adapter.apply_and_wait(label, win, &anchored, true, eps, timing)
            },
            Stage::ForcedFallback | Stage::LastFallback | Stage::Finished(_) => {
                adapter.fallback_shrink_move_grow(label, win, &target, eps, timing)
            },
        }
    }

    /// Take in the answer to the request of the current stage.
    fn absorb(&mut self, counters: &mut PlacementCounters, reply: Result<(Rect, u64), Error>)
        requires
            !(old(self).stage is Finished),
            old(self).timeline@.len() < 100,
        ensures
            final(self).inputs() == old(self).inputs(),
            final(self).progress() == advanced(old(self).inputs(), old(self).progress(), reply),
            forall|start: PlacementCountersSnapshot|
                old(counters)@ == #[trigger] start.tallied(old(self).timeline@) ==> final(counters)@ == start.tallied(final(self).timeline@),
    {
        let ghost attempts = self.timeline@;
        match reply {
            Ok((got, settle_ms)) => {
                match &self.stage {
                    Stage::Primary => self.after_primary(counters, got, settle_ms),
                    Stage::Nudge(axis) => {
                        let axis = *axis;
                        self.after_nudge(counters, axis, got, settle_ms)
                    },
                    Stage::Opposite => self.after_opposite(counters, got, settle_ms),
                    Stage::SizeOnly => self.after_size_only(counters, got, settle_ms),
                    Stage::AnchorResized => self.after_anchor_resized(counters, got, settle_ms),
                    Stage::AnchorLegal => self.after_anchor_legal(counters, got, settle_ms),
                    Stage::ForcedFallback | Stage::LastFallback => self.after_fallback(
                        counters,
                        got,
                        settle_ms,
                    ),
                    Stage::Finished(_) => {},
                }
                assert(self.timeline@.drop_last() =~= attempts);
            },
            Err(error) => {
                match &self.stage {
                    Stage::SizeOnly => self.go_anchor(),
                    _ => {
                        self.stage = Stage::Finished(Verdict::Aborted(error));
                    },
                }
            },
        }
    }
}

/// Rank of a stage: later stages rank lower.
pub open spec fn rank(stage: Stage) -> nat {
    match stage {
        Stage::Primary => 8,
        Stage::Nudge(_) => 7,
        Stage::Opposite => 6,
        Stage::ForcedFallback => 5,
        Stage::SizeOnly => 4,
        Stage::AnchorResized => 3,
        Stage::AnchorLegal => 2,
        Stage::LastFallback => 1,
        Stage::Finished(_) => 0,
    }
}

/// Every answer leads to a later stage.
pub proof fn stages_only_move_forward<H: DecisionHooks>(
    inputs: Inputs<H>,
    p: Progress,
    reply: Result<(Rect, u64), Error>,
)
    requires
        !(p.stage is Finished),
    ensures
        rank(advanced(inputs, p, reply).stage) < rank(p.stage),
        advanced(inputs, p, reply).timeline.len() <= p.timeline.len() + 1,
{
}

/// One more exchange that follows the strategy.
proof fn one_more_exchange<H: DecisionHooks>(
    inputs: Inputs<H>,
    events: Seq<AxEvent>,
    call: PlaceCall,
    reply: Result<(Rect, u64), Error>,
)
    requires
        follows_strategy(inputs, events),
        !(progress_after(inputs, events).stage is Finished),
        call == request(inputs, progress_after(inputs, events)),
    ensures
        follows_strategy(inputs, events.push(AxEvent::Placed { call, reply })),
        progress_after(inputs, events.push(AxEvent::Placed { call, reply })) == advanced(
            inputs,
            progress_after(inputs, events),
            reply,
        ),
{
    assert(events.push(AxEvent::Placed { call, reply }).drop_last() =~= events);
}

/// Every exchange that follows the strategy is a request for a placement.
proof fn placed_throughout<H: DecisionHooks>(inputs: Inputs<H>, events: Seq<AxEvent>)
    requires
        follows_strategy(inputs, events),
    ensures
        events.len() > 0 ==> events.last() is Placed,
{
}

/// A question at the end of the log is no part of the exchanges.
proof fn question_stays_apart(
    before: Seq<AxEvent>,
    tail: Seq<AxEvent>,
    after: Seq<AxEvent>,
    events: Seq<AxEvent>,
)
    requires
        tail.len() > before.len(),
        tail.take(before.len() as int) == before,
        tail.skip(before.len() as int + 1) == events,
        after.len() == tail.len() + 1,
        after.drop_last() == tail,
        after.last() is Settable,
    ensures
        after.take(before.len() as int) == before,
        after[before.len() as int] == tail[before.len() as int],
        exchanges(before, after) == events,
{
    let added = after.skip(before.len() as int + 1);
    assert(added.last() == after.last());
    assert(added.drop_last() =~= events) by {
        assert forall|i: int| 0 <= i < events.len() implies added.drop_last()[i] == events[i] by {
            assert(after.drop_last()[before.len() + 1 + i] == tail[before.len() + 1 + i]);
        }
    }
    assert(after.take(before.len() as int) =~= before) by {
        assert forall|i: int| 0 <= i < before.len() implies after[i] == before[i] by {
            assert(after.drop_last()[i] == tail[i]);
            assert(tail.take(before.len() as int)[i] == before[i]);
        }
    }
    assert(after.drop_last()[before.len() as int] == tail[before.len() as int]);
}

/// Whether a log is another one with the question of what can be set of a window
/// at its end.
spec fn with_question(before: Seq<AxEvent>, after: Seq<AxEvent>, win: AxElem) -> bool {
    &&& after.len() == before.len() + 1
    &&& after.drop_last() == before
    &&& asked_again(after, win)
}

/// Ask once more what can be set, for the account of a failure, and count it.
fn log_failure_context<A: AxAdapter>(
    adapter: &mut A,
    win: AxElem,
    counters: &mut PlacementCounters,
)
    ensures
        with_question(old(adapter).log(), final(adapter).log(), win),
        carries_on(*old(adapter), *final(adapter)),
        final(counters)@ == old(counters)@.failed(),
{
    let ghost before = adapter.log();
    let _ = adapter.settable_pos_size(win);
    assert(adapter.log().drop_last() =~= before);
    counters.record_failure();
}

impl<'a, H: DecisionHooks> Run<'a, H> {
    /// Report how the placement ended.
    fn conclude<A: AxAdapter>(
        self,
        adapter: &mut A,
        counters: &mut PlacementCounters,
    ) -> (r: Result<PlacementOutcome, Error>)
        requires
            self.stage is Finished,
        ensures
            reports(r, self.progress(), self.inputs().eps as int),
            carries_on(*old(adapter), *final(adapter)),
            if fell_short(self.progress()) {
                &&& with_question(old(adapter).log(), final(adapter).log(), self.inputs().win)
                &&& final(counters)@ == old(counters)@.failed()
            } else {
                &&& final(adapter).log() == old(adapter).log()
                &&& final(counters)@ == old(counters)@
            },
    {
        let eps: i64 = self.eps();
        let win = self.ctx.win;
        let timeline = self.timeline;
        match self.stage {
            Stage::Finished(verdict) => match verdict {
                Verdict::Verified(success) => Ok(PlacementOutcome::Verified(success)),
                Verdict::OnlyAttemptFailed { got, visible_frame } => {
                    log_failure_context(adapter, win, counters);
                    Ok(
                        PlacementOutcome::PosFirstOnlyFailure(
                            PlacementFailureContext {
                                got,
                                clamped: clamp_flags(&got, &visible_frame, eps),
                                visible_frame,
                                timeline,
                            },
                        ),
                    )
                },
                Verdict::Failed { got, visible_frame } => {
                    log_failure_context(adapter, win, counters);
                    Ok(
                        PlacementOutcome::VerificationFailure(
                            PlacementFailureContext {
                                got,
                                clamped: clamp_flags(&got, &visible_frame, eps),
                                visible_frame,
                                timeline,
                            },
                        ),
                    )
                },
                Verdict::Aborted(error) => Err(error),
            },
            _ => Err(Error::WindowGone),
        }
    }
}

/// The placement pipeline for one window.
pub struct PlacementEngine<'a, H> {
    /// What is placed, where and how.
    pub ctx: &'a PlacementContext<H>,
    /// What stays the same during the placement.
    pub config: PlacementEngineConfig<'a>,
}

/// The exchanges that a placement added to the log: all but the question of what
/// can be set, which comes first and, after a failure, once more at the end.
pub open spec fn exchanges(before: Seq<AxEvent>, after: Seq<AxEvent>) -> Seq<AxEvent> {
    let added = after.skip(before.len() as int + 1);
    if added.len() > 0 && added.last() is Settable {
        added.drop_last()
    } else {
        added
    }
}

/// Whether the last thing asked was what can be set of a window.
pub open spec fn asked_again(log: Seq<AxEvent>, asked: AxElem) -> bool {
    log.last() matches AxEvent::Settable { win, .. } && win == asked
}

/// Whether a placement ran: the log was extended by the question of what can be
/// set, by the exchanges that the strategy calls for and, after a failure, by
/// the same question once more; the counters took in the attempts, and the
/// result reports the end.
pub open spec fn ran<H: DecisionHooks>(
    ctx: PlacementContext<H>,
    config: PlacementEngineConfig<'_>,
    log_before: Seq<AxEvent>,
    log_after: Seq<AxEvent>,
    counters_before: PlacementCountersSnapshot,
    counters_now: PlacementCountersSnapshot,
    result: Result<PlacementOutcome, Error>,
) -> bool {
    &&& log_after.len() > log_before.len()
    &&& log_after.take(log_before.len() as int) == log_before
    &&& log_after[log_before.len() as int] matches AxEvent::Settable { win, can_pos, can_size }
        && win == ctx.win && {
        let inputs = inputs_of(ctx, config, can_pos, can_size);
        let events = exchanges(log_before, log_after);
        let end = progress_after(inputs, events);
        &&& follows_strategy(inputs, events)
        &&& log_after.len() == log_before.len() + events.len() + (if fell_short(end) {
            2int
        } else {
            1int
        })
        &&& fell_short(end) ==> asked_again(log_after, ctx.win)
        &&& reports(result, end, inputs.eps as int)
        &&& counters_now == counters_after(counters_before, end)
    }
}

impl<'a, H: DecisionHooks> PlacementEngine<'a, H> {
    /// A pipeline for the given context.
    pub fn new(ctx: &'a PlacementContext<H>, config: PlacementEngineConfig<'a>) -> (r: Self)
        ensures
            r == (PlacementEngine { ctx, config }),
    {
        PlacementEngine { ctx, config }
    }

    /// Place the window.
    ///
    /// The adapter is first asked what can be set, and then receives exactly the
    /// requests that the strategy calls for, until the strategy has ended. After
    /// a failure it is asked once more what can be set. The result reports the
    /// end, and the counters take in its attempts.
    pub fn execute<A: AxAdapter>(
        &self,
        adapter: &mut A,
        counters: &mut PlacementCounters,
    ) -> (r: Result<PlacementOutcome, Error>)
        ensures
            ran(
                *self.ctx,
                self.config,
                old(adapter).log(),
                final(adapter).log(),
                old(counters)@,
                final(counters)@,
                r,
            ),
            carries_on(*old(adapter), *final(adapter)),
    {
        let ghost start = *adapter;
        let ghost log0 = adapter.log();
        let ghost counted0 = counters@;
        let win = self.ctx.win;
        let (can_pos, can_size) = adapter.settable_pos_size(win);
        let ghost inputs = inputs_of(*self.ctx, self.config, can_pos, can_size);
        let ghost head = adapter.log();
        let mut run = Run {
            ctx: self.ctx,
            config: self.config,
            can_pos,
            can_size,
            stage: Stage::Primary,
            got: self.ctx.target,
            vf: self.ctx.visible_frame,
            diffs: Diffs { x: 0, y: 0, w: 0, h: 0 },
            retry_verified: false,
            anchors_left: self.ctx.options.retry_limits().max_anchor_attempts,
            timeline: AttemptTimeline::new(),
        };
        let ghost mut events: Seq<AxEvent> = Seq::empty();
        assert(head + events =~= head);
        assert(head.skip(log0.len() as int + 1) =~= Seq::empty());
        loop
            invariant_except_break
                run.timeline@.len() + rank(run.stage) <= 8,
            invariant
                inputs == inputs_of(*self.ctx, self.config, can_pos, can_size),
                run.inputs() == inputs,
                carries_on(start, *adapter),
                adapter.log() == head + events,
                follows_strategy(inputs, events),
                run.progress() == progress_after(inputs, events),
                counters@ == counted0.tallied(run.timeline@),
            ensures
                run.stage is Finished,
            decreases rank(run.stage),
        {
            let ghost before = run.progress();
            if run.is_finished() {
                break;
            }
            let reply = run.issue(adapter);
            proof {
                let event = AxEvent::Placed { call: request(inputs, before), reply };
                one_more_exchange(inputs, events, request(inputs, before), reply);
                stages_only_move_forward(inputs, before, reply);
                assert(adapter.log() =~= head + events.push(event));
                events = events.push(event);
            }
            run.absorb(counters, reply);
        }
        proof {
            placed_throughout(inputs, events);
            assert(adapter.log().take(log0.len() as int) =~= log0);
            assert(adapter.log().skip(log0.len() as int + 1) =~= events);
        }
        let ghost tail = adapter.log();
        let ghost end = run.progress();
        let result = run.conclude(adapter, counters);
        proof {
            if fell_short(end) {
                question_stays_apart(log0, tail, adapter.log(), events);
            }
        }
        result
    }
}

} // verus!
