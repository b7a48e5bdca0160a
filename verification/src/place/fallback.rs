//! Parking a window before it is placed, and the shrink, move and grow run.

use vstd::prelude::*;

use crate::error::Error;
use crate::geom::{min_int, Point, Rect, Size};
use crate::place::apply::{ApplyAction, ApplyEvent, ApplyKind, ApplyRun, ApplyStage};
use crate::place::common::SettleTiming;

verus! {

/// Largest width of a parked or shrunk window.
pub const FALLBACK_SAFE_MAX_W: i64 = 409_600;

/// Largest height of a parked or shrunk window.
pub const FALLBACK_SAFE_MAX_H: i64 = 307_200;

/// Distance of a parked window from the corner of its frame.
pub const PARK_INSET: i64 = 32_768;

/// The target's size, held to what is safe.
pub open spec fn safe_extent(target: Rect) -> Size {
    Size {
        width: min_int(target.w as int, FALLBACK_SAFE_MAX_W as int) as i64,
        height: min_int(target.h as int, FALLBACK_SAFE_MAX_H as int) as i64,
    }
}

/// The target's size, held to what is safe.
pub fn safe_size(target: &Rect) -> (r: Size)
    ensures
        r == safe_extent(*target),
        r.width <= target.w && r.width <= FALLBACK_SAFE_MAX_W,
        r.height <= target.h && r.height <= FALLBACK_SAFE_MAX_H,
        r.width == target.w || r.width == FALLBACK_SAFE_MAX_W,
        r.height == target.h || r.height == FALLBACK_SAFE_MAX_H,
{
    Size {
        width: if target.w <= FALLBACK_SAFE_MAX_W {
            target.w
        } else {
            FALLBACK_SAFE_MAX_W
        },
        height: if target.h <= FALLBACK_SAFE_MAX_H {
            target.h
        } else {
            FALLBACK_SAFE_MAX_H
        },
    }
}

/// Where a window is parked, or nothing when position or size is known not to
/// be settable.
pub fn park_rect(
    visible_frame: &Rect,
    target: &Rect,
    can_pos: Option<bool>,
    can_size: Option<bool>,
) -> (r: Option<Rect>)
    requires
        visible_frame.on_desktop(),
    ensures
        r is None <==> can_pos == Some(false) || can_size == Some(false),
        r matches Some(park) ==> {
            &&& park.x == visible_frame.x + PARK_INSET
            &&& park.y == visible_frame.y + PARK_INSET
            &&& park.w == safe_extent(*target).width
            &&& park.h == safe_extent(*target).height
        },
{
    if can_pos == Some(false) || can_size == Some(false) {
        return None;
    }
    let size = safe_size(target);
    Some(
        Rect {
            x: visible_frame.x + PARK_INSET,
            y: visible_frame.y + PARK_INSET,
            w: size.width,
            h: size.height,
        },
    )
}

/// One rectangle of a run, and whether its position is set before its size.
#[derive(Debug, Clone, Copy, PartialEq, Eq, Structural)]
pub struct FallbackStep {
    /// The rectangle to set.
    pub rect: Rect,
    /// Whether position is set before size.
    pub pos_first: bool,
}

/// The three rectangles of a run: shrunk where the window is, moved at that
/// size, and grown where the target is.
pub open spec fn regrow_plan(current: Point, target: Rect) -> Seq<FallbackStep> {
    let safe = safe_extent(target);
    seq![
        FallbackStep {
            rect: Rect { x: current.x, y: current.y, w: safe.width, h: safe.height },
            pos_first: false,
        },
        FallbackStep {
            rect: Rect { x: target.x, y: target.y, w: safe.width, h: safe.height },
            pos_first: true,
        },
        FallbackStep { rect: target, pos_first: false },
    ]
}

/// The rectangles of a shrink, move and grow run.
pub fn fallback_steps(current: Point, target: &Rect) -> (r: Vec<FallbackStep>)
    ensures
        r@ == regrow_plan(current, *target),
{
    let safe = safe_size(target);
    let mut steps: Vec<FallbackStep> = Vec::new();
    steps.push(
        FallbackStep {
            rect: Rect { x: current.x, y: current.y, w: safe.width, h: safe.height },
            pos_first: false,
        },
    );
    steps.push(
        FallbackStep {
            rect: Rect { x: target.x, y: target.y, w: safe.width, h: safe.height },
            pos_first: true,
        },
    );
    steps.push(FallbackStep { rect: *target, pos_first: false });
    assert(steps@ =~= regrow_plan(current, *target));
    steps
}

/// A run ends at the target, and the window is never moved while it is larger
/// than is safe.
pub proof fn regrow_ends_at_target(current: Point, target: Rect)
    ensures
        regrow_plan(current, target).len() == 3,
        regrow_plan(current, target).last().rect == target,
        forall|i: int|
            0 <= i < 2 ==> {
                let step = #[trigger] regrow_plan(current, target)[i];
                step.rect.w <= FALLBACK_SAFE_MAX_W && step.rect.h <= FALLBACK_SAFE_MAX_H
            },
        regrow_plan(current, target)[1].rect.x == target.x,
        regrow_plan(current, target)[1].rect.y == target.y,
{
}

/// Whether a request for a rectangle has just begun.
pub open spec fn apply_begun(
    apply: Option<ApplyRun>,
    rect: Rect,
    pos_first: bool,
    eps: i64,
    timing: SettleTiming,
) -> bool {
    &&& apply matches Some(run)
    &&& run.started(
        ApplyKind::Frame { target: rect, pos_first },
        eps,
        timing,
        ApplyStage::Asking,
    )
    &&& run.valid()
}

/// How far a shrink, move and grow run has come.
#[derive(Debug, Clone, Copy, PartialEq, Eq, Structural)]
pub enum RegrowStage {
    /// Where the window is has to be read.
    Looking,
    /// A rectangle is set.
    Step(usize),
    /// The end.
    Over,
}

/// A shrink, move and grow run.
#[derive(Debug)]
pub struct RegrowRun {
    /// The rectangle to reach.
    pub target: Rect,
    /// Tolerance.
    pub eps: i64,
    /// Pauses.
    pub timing: SettleTiming,
    /// How far it has come.
    pub stage: RegrowStage,
    /// The rectangles, once they are known.
    pub steps: Vec<FallbackStep>,
    /// The request for the rectangle at hand.
    pub apply: Option<ApplyRun>,
    /// The settle times of the rectangles so far.
    pub total_ms: u64,
}

impl RegrowRun {
    /// Whether the run can be carried on.
    pub open spec fn valid(&self) -> bool {
        match self.stage {
            RegrowStage::Step(i) => i < self.steps@.len() && (self.apply matches Some(apply)
                && apply.valid()),
            _ => true,
        }
    }

    /// Whether an event answers what is waited for.
    pub open spec fn fits(&self, event: ApplyEvent) -> bool {
        match self.stage {
            RegrowStage::Looking => event is Frame || event is Failed,
            RegrowStage::Step(_) => self.apply matches Some(apply) && apply.fits(event),
            RegrowStage::Over => false,
        }
    }

    /// Whether two runs are after the same thing.
    pub open spec fn same_aim(&self, other: &RegrowRun) -> bool {
        self.target == other.target && self.eps == other.eps && self.timing == other.timing
    }

    /// Whether the request for a rectangle comes next.
    pub open spec fn sets(&self, i: int, action: ApplyAction) -> bool {
        &&& self.stage == RegrowStage::Step(i as usize)
        &&& 0 <= i < self.steps@.len()
        &&& apply_begun(
            self.apply,
            self.steps@[i].rect,
            self.steps@[i].pos_first,
            self.eps,
            self.timing,
        )
        &&& action is AskSettable
    }

    /// Whether `after` and `action` follow from an action of the request at hand.
    pub open spec fn passes_on(
        &self,
        i: int,
        inner: ApplyRun,
        step: ApplyAction,
        after: RegrowRun,
        action: ApplyAction,
    ) -> bool {
        match step {
            ApplyAction::Finish(Err(_)) => after.stage is Over && action == step,
            ApplyAction::Finish(Ok((got, took_ms))) => {
                &&& after.total_ms == self.total_ms + took_ms
                &&& after.steps == self.steps
                &&& if i + 1 < self.steps@.len() {
                    after.sets(i + 1, action)
                } else {
                    after.stage is Over && action == ApplyAction::Finish(Ok((got, after.total_ms)))
                }
            },
            _ => {
                &&& after.total_ms == self.total_ms
                &&& after.steps == self.steps
                &&& after.stage == self.stage
                &&& after.apply == Some(inner)
                &&& action == step
            },
        }
    }

    /// Whether `after` and `action` answer an event. The first error ends the run.
    pub open spec fn answered(
        &self,
        event: ApplyEvent,
        elapsed_ms: u64,
        after: RegrowRun,
        action: ApplyAction,
    ) -> bool {
        &&& after.same_aim(self)
        &&& match self.stage {
            RegrowStage::Looking => match event {
                ApplyEvent::Frame(seen) => {
                    &&& after.steps@ == regrow_plan(Point { x: seen.x, y: seen.y }, self.target)
                    &&& after.total_ms == self.total_ms
                    &&& after.sets(0, action)
                },
                ApplyEvent::Failed(e) => after.stage is Over && action == ApplyAction::Finish(
                    Err(e),
                ),
                _ => true,
            },
            RegrowStage::Step(i) => exists|inner: ApplyRun, step: ApplyAction|
                #[trigger] self.apply->0.answered(event, elapsed_ms, inner, step)
                    && self.passes_on(i as int, inner, step, after, action),
            RegrowStage::Over => true,
        }
    }

    /// Begin a run.
    pub fn fallback_shrink_move_grow(target: &Rect, eps: i64, timing: SettleTiming) -> (r: (
        Self,
        ApplyAction,
    ))
        ensures
            r.0.target == *target,
            r.0.eps == eps,
            r.0.timing == timing,
            r.0.stage is Looking,
            r.0.total_ms == 0,
            r.0.valid(),
            r.1 is ReadFrame,
    {
        (
            RegrowRun {
                target: *target,
                eps,
                timing,
                stage: RegrowStage::Looking,
                steps: Vec::new(),
                apply: None,
                total_ms: 0,
            },
            ApplyAction::ReadFrame,
        )
    }

    fn set(&mut self, i: usize) -> (r: ApplyAction)
        requires
            i < old(self).steps@.len(),
        ensures
            final(self).same_aim(old(self)),
            final(self).steps == old(self).steps,
            final(self).total_ms == old(self).total_ms,
            final(self).sets(i as int, r),
    {
        let step = self.steps[i];
        let (apply, action) = ApplyRun::apply_and_wait(
            &step.rect,
            step.pos_first,
            self.eps,
            self.timing,
        );
        self.apply = Some(apply);
        self.stage = RegrowStage::Step(i);
        action
    }

    fn go_on(&mut self, i: usize, apply: ApplyRun, event: ApplyEvent, elapsed_ms: u64) -> (r:
        ApplyAction)
        requires
            old(self).stage == RegrowStage::Step(i),
            i < old(self).steps@.len(),
            apply.valid(),
            apply.fits(event),
            old(self).total_ms + elapsed_ms <= u64::MAX,
        ensures
            final(self).valid(),
            final(self).same_aim(old(self)),
            exists|inner: ApplyRun, step: ApplyAction|
                #[trigger] apply.answered(event, elapsed_ms, inner, step) && old(self).passes_on(
                    i as int,
                    inner,
                    step,
                    *final(self),
                    r,
                ),
    {
        let mut inner = apply;
        let step = inner.next(event, elapsed_ms);
        let ghost (after_apply, answer) = (inner, step);
        assert(apply.answered(event, elapsed_ms, after_apply, answer));
        match step {
            ApplyAction::Finish(Ok((got, took_ms))) => {
                self.total_ms = self.total_ms + took_ms;
                if i < self.steps.len() - 1 {
                    self.set(i + 1)
                } else {
                    self.stage = RegrowStage::Over;
                    ApplyAction::Finish(Ok((got, self.total_ms)))
                }
            },
            ApplyAction::Finish(Err(e)) => {
                self.stage = RegrowStage::Over;
                ApplyAction::Finish(Err(e))
            },
            other => {
                self.apply = Some(inner);
                other
            },
        }
    }

    /// Take in what came of the last action, `elapsed_ms` after the request for the
    /// rectangle at hand began, and say what to do next.
    pub fn next(&mut self, event: ApplyEvent, elapsed_ms: u64) -> (r: ApplyAction)
        requires
            old(self).valid(),
            old(self).fits(event),
            old(self).total_ms + elapsed_ms <= u64::MAX,
        ensures
            final(self).valid(),
            old(self).answered(event, elapsed_ms, *final(self), r),
    {
        match self.stage {
            RegrowStage::Looking => match event {
                ApplyEvent::Frame(seen) => {
                    self.steps = fallback_steps(Point { x: seen.x, y: seen.y }, &self.target);
                    self.set(0)
                },
                ApplyEvent::Failed(e) => {
                    self.stage = RegrowStage::Over;
                    ApplyAction::Finish(Err(e))
                },
                _ => ApplyAction::ReadFrame,
            },
            RegrowStage::Step(i) => match self.apply.take() {
                Some(apply) => self.go_on(i, apply, event, elapsed_ms),
                None => ApplyAction::ReadFrame,
            },
            RegrowStage::Over => ApplyAction::ReadFrame,
        }
    }
}

/// What to do to park a window.
#[derive(Debug)]
pub enum ParkAction {
    /// Do something with the window.
    Perform(ApplyAction),
    /// Nothing: this is the result.
    Finish(Result<(), Error>),
}

/// A window that is being parked.
#[derive(Debug)]
pub struct ParkRun {
    /// The visible frame to park in.
    pub visible_frame: Rect,
    /// The rectangle to be reached afterwards.
    pub target: Rect,
    /// Tolerance.
    pub eps: i64,
    /// Pauses.
    pub timing: SettleTiming,
    /// The request for the parking place, once it has begun.
    pub apply: Option<ApplyRun>,
    /// Whether it is over.
    pub over: bool,
}

impl ParkRun {
    /// Whether the run can be carried on.
    pub open spec fn valid(&self) -> bool {
        &&& self.visible_frame.on_desktop()
        &&& self.apply matches Some(apply) ==> apply.valid()
    }

    /// Whether an event answers what is waited for.
    pub open spec fn fits(&self, event: ApplyEvent) -> bool {
        &&& !self.over
        &&& match self.apply {
            None => event is Settable,
            Some(apply) => apply.fits(event),
        }
    }

    /// Whether a rectangle is the parking place.
    pub open spec fn is_place(&self, park: Rect) -> bool {
        &&& park.x == self.visible_frame.x + PARK_INSET
        &&& park.y == self.visible_frame.y + PARK_INSET
        &&& park.w == safe_extent(self.target).width
        &&& park.h == safe_extent(self.target).height
    }

    /// Whether two runs are after the same thing.
    pub open spec fn same_aim(&self, other: &ParkRun) -> bool {
        &&& self.visible_frame == other.visible_frame
        &&& self.target == other.target
        &&& self.eps == other.eps
        &&& self.timing == other.timing
    }

    /// Whether `after` and `action` answer an event. A window whose position or size is
    /// known not to be settable is left where it is.
    pub open spec fn answered(
        &self,
        event: ApplyEvent,
        elapsed_ms: u64,
        after: ParkRun,
        action: ParkAction,
    ) -> bool {
        &&& after.same_aim(self)
        &&& match self.apply {
            None => match event {
                ApplyEvent::Settable(can_pos, can_size) => if can_pos == Some(false) || can_size
                    == Some(false) {
                    after.over && action == ParkAction::Finish(Ok(()))
                } else {
                    &&& !after.over
                    &&& action == ParkAction::Perform(ApplyAction::AskSettable)
                    &&& exists|park: Rect| #[trigger]
                        self.is_place(park) && apply_begun(
                            after.apply,
                            park,
                            true,
                            self.eps,
                            self.timing,
                        )
                },
                _ => true,
            },
            Some(apply) => exists|inner: ApplyRun, step: ApplyAction| #[trigger]
                apply.answered(event, elapsed_ms, inner, step) && match step {
                    ApplyAction::Finish(Ok(_)) => after.over && action == ParkAction::Finish(Ok(())),
                    ApplyAction::Finish(Err(e)) => after.over && action == ParkAction::Finish(
                        Err(e),
                    ),
                    _ => !after.over && after.apply == Some(inner) && action
                        == ParkAction::Perform(step),
                },
        }
    }

    /// Begin to park a window.
    pub fn preflight_safe_park(
        visible_frame: &Rect,
        target: &Rect,
        eps: i64,
        timing: SettleTiming,
    ) -> (r: (Self, ParkAction))
        requires
            visible_frame.on_desktop(),
        ensures
            r.0 == (ParkRun {
                visible_frame: *visible_frame,
                target: *target,
                eps,
                timing,
                apply: None,
                over: false,
            }),
            r.0.valid(),
            r.1 == ParkAction::Perform(ApplyAction::AskSettable),
    {
        (
            ParkRun {
                visible_frame: *visible_frame,
                target: *target,
                eps,
                timing,
                apply: None,
                over: false,
            },
            ParkAction::Perform(ApplyAction::AskSettable),
        )
    }

    fn choose_place(&mut self, can_pos: Option<bool>, can_size: Option<bool>) -> (r: ParkAction)
        requires
            old(self).valid(),
            old(self).apply is None,
            !old(self).over,
        ensures
            final(self).valid(),
            old(self).answered(ApplyEvent::Settable(can_pos, can_size), 0, *final(self), r),
    {
        match park_rect(&self.visible_frame, &self.target, can_pos, can_size) {
            None => {
                self.over = true;
                ParkAction::Finish(Ok(()))
            },
            Some(park) => {
                assert(self.is_place(park));
                let (apply, action) = ApplyRun::apply_and_wait(&park, true, self.eps, self.timing);
                self.apply = Some(apply);
                ParkAction::Perform(action)
            },
        }
    }

    /// Take in what came of the last action, and say what to do next.
    pub fn next(&mut self, event: ApplyEvent, elapsed_ms: u64) -> (r: ParkAction)
        requires
            old(self).valid(),
            old(self).fits(event),
        ensures
            final(self).valid(),
            old(self).answered(event, elapsed_ms, *final(self), r),
    {
        match self.apply.take() {
            None => match event {
                ApplyEvent::Settable(can_pos, can_size) => self.choose_place(can_pos, can_size),
                _ => ParkAction::Perform(ApplyAction::AskSettable),
            },
            Some(apply) => {
                let mut inner = apply;
                let step = inner.next(event, elapsed_ms);
                let ghost (after_apply, answer) = (inner, step);
                assert(apply.answered(event, elapsed_ms, after_apply, answer));
                match step {
                    ApplyAction::Finish(Ok(_)) => {
                        self.over = true;
                        ParkAction::Finish(Ok(()))
                    },
                    ApplyAction::Finish(Err(e)) => {
                        self.over = true;
                        ParkAction::Finish(Err(e))
                    },
                    other => {
                        self.apply = Some(inner);
                        ParkAction::Perform(other)
                    },
                }
            },
        }
    }
}

/// A run that succeeds has set its last rectangle, and that is the target.
pub proof fn regrowing_ends_with_the_target(
    run: RegrowRun,
    current: Point,
    event: ApplyEvent,
    elapsed_ms: u64,
    after: RegrowRun,
    got: Rect,
    took_ms: u64,
)
    requires
        run.valid(),
        run.fits(event),
        run.steps@ == regrow_plan(current, run.target),
        run.stage is Step,
        run.answered(event, elapsed_ms, after, ApplyAction::Finish(Ok((got, took_ms)))),
    ensures
        run.stage == RegrowStage::Step(2),
        event == ApplyEvent::Frame(got),
        took_ms == run.total_ms + elapsed_ms,
{
    let i = run.stage->Step_0;
    let apply = run.apply->0;
    let (inner, step) = choose|inner: ApplyRun, step: ApplyAction|
        #[trigger] apply.answered(event, elapsed_ms, inner, step) && run.passes_on(
            i as int,
            inner,
            step,
            after,
            ApplyAction::Finish(Ok((got, took_ms))),
        );
    if let ApplyAction::Finish(Ok((seen, ms))) = step {
        crate::place::apply::settled_or_out_of_time(apply, event, elapsed_ms, inner, seen, ms);
    }
}

} // verus!
