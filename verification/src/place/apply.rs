//! How a rectangle is set and how long the window is given to take it.
//!
//! Setting and reading are done by the caller: this module says which
//! attributes to set, in which order and with which pauses, and decides after
//! each reading whether the window has settled.

use vstd::prelude::*;

use crate::error::Error;
use crate::geom::{near, Axis, Point, Rect, Size};
use crate::place::common::SettleTiming;

verus! {

/// One step of setting a rectangle.
#[derive(Debug, Clone, Copy, PartialEq, Eq, Structural)]
pub enum SetStep {
    /// Set the position.
    Position(Point),
    /// Set the size.
    Size(Size),
    /// Wait for some milliseconds.
    Pause(u64),
    /// Warn once that the owner does not let an attribute be set.
    WarnNonsettable,
}

/// Setting the position, where that is possible.
pub open spec fn position_step(target: Rect, can_pos: Option<bool>) -> SetStep {
    if can_pos == Some(false) {
        SetStep::WarnNonsettable
    } else {
        SetStep::Position(Point { x: target.x, y: target.y })
    }
}

/// Setting the size, where that is possible.
pub open spec fn size_step(target: Rect, can_size: Option<bool>) -> SetStep {
    if can_size == Some(false) {
        SetStep::WarnNonsettable
    } else {
        SetStep::Size(Size { width: target.w, height: target.h })
    }
}

/// Both attributes in the requested order, with a pause between them when both
/// are set.
pub open spec fn set_plan(
    target: Rect,
    pos_first: bool,
    can_pos: Option<bool>,
    can_size: Option<bool>,
    stutter_ms: u64,
) -> Seq<SetStep> {
    let pause = if can_pos != Some(false) && can_size != Some(false) {
        seq![SetStep::Pause(stutter_ms)]
    } else {
        Seq::empty()
    };
    let pos = seq![position_step(target, can_pos)];
    let size = seq![size_step(target, can_size)];
    if pos_first {
        pos + pause + size
    } else {
        size + pause + pos
    }
}

/// The steps that set a rectangle.
pub fn set_steps(
    target: &Rect,
    pos_first: bool,
    can_pos: Option<bool>,
    can_size: Option<bool>,
    timing: SettleTiming,
) -> (r: Vec<SetStep>)
    ensures
        r@ == set_plan(*target, pos_first, can_pos, can_size, timing.apply_stutter_ms),
{
    let do_pos = can_pos != Some(false);
    let do_size = can_size != Some(false);
    let pos = if do_pos {
        SetStep::Position(Point { x: target.x, y: target.y })
    } else {
        SetStep::WarnNonsettable
    };
    let size = if do_size {
        SetStep::Size(Size { width: target.w, height: target.h })
    } else {
        SetStep::WarnNonsettable
    };
    let (first, second) = if pos_first {
        (pos, size)
    } else {
        (size, pos)
    };
    let mut steps: Vec<SetStep> = Vec::new();
    steps.push(first);
    if do_pos && do_size {
        steps.push(SetStep::Pause(timing.apply_stutter_ms));
    }
    steps.push(second);
    assert(steps@ =~= set_plan(*target, pos_first, can_pos, can_size, timing.apply_stutter_ms));
    steps
}

/// The position that a nudge sets: the target's along the axis, the window's
/// own across it.
pub fn nudge_position(current: Point, target: &Rect, axis: Axis) -> (r: Point)
    ensures
        axis is Horizontal ==> r == (Point { x: target.x, y: current.y }),
        axis is Vertical ==> r == (Point { x: current.x, y: target.y }),
{
    match axis {
        Axis::Horizontal => Point { x: target.x, y: current.y },
        Axis::Vertical => Point { x: current.x, y: target.y },
    }
}

/// What a window is waited for to take.
#[derive(Debug, Clone, Copy, PartialEq, Eq, Structural)]
pub enum SettleGoal {
    /// A position and a size.
    Frame(Rect),
    /// A size, wherever the window is.
    Size(Size),
}

impl SettleGoal {
    /// Whether a window at `seen` has reached the goal.
    pub open spec fn reached(self, seen: Rect, eps: int) -> bool {
        match self {
            SettleGoal::Frame(target) => seen.matches(target, eps),
            SettleGoal::Size(size) => near(seen.w as int, size.width as int, eps) && near(
                seen.h as int,
                size.height as int,
                eps,
            ),
        }
    }
}

/// What to do after a reading.
#[derive(Debug, Clone, Copy, PartialEq, Eq, Structural)]
pub enum SettleStep {
    /// Report this rectangle and this settle time.
    Report(Rect, u64),
    /// Wait for some milliseconds, then read again.
    Sleep(u64),
}

/// A wait for a window to settle.
#[derive(Debug, Clone, Copy, PartialEq, Eq, Structural)]
pub struct SettleWait {
    /// What is waited for.
    pub goal: SettleGoal,
    /// Tolerance.
    pub eps: i64,
    /// Pause between two readings.
    pub sleep_ms: u64,
    /// Longest time to wait.
    pub total_ms: u64,
    /// Time waited so far.
    pub waited_ms: u64,
}

/// A sum held inside the range of the counter.
pub open spec fn capped_sum(a: u64, b: u64) -> u64 {
    if a + b > u64::MAX {
        u64::MAX
    } else {
        (a + b) as u64
    }
}

impl SettleWait {
    /// A wait that has not begun.
    pub fn new(goal: SettleGoal, eps: i64, timing: SettleTiming) -> (r: Self)
        ensures
            r == (SettleWait {
                goal,
                eps,
                sleep_ms: timing.settle_sleep_ms,
                total_ms: timing.settle_total_ms,
                waited_ms: 0,
            }),
    {
        SettleWait {
            goal,
            eps,
            sleep_ms: timing.settle_sleep_ms,
            total_ms: timing.settle_total_ms,
            waited_ms: 0,
        }
    }

    /// Whether a reading ends the wait: the goal is reached or time is up.
    pub open spec fn ends(self, seen: Rect) -> bool {
        self.goal.reached(seen, self.eps as int) || self.waited_ms >= self.total_ms
    }

    /// Take in a reading made `elapsed_ms` after the setters ran.
    pub fn observe(&mut self, seen: Rect, elapsed_ms: u64) -> (r: SettleStep)
        ensures
            old(self).ends(seen) ==> r == SettleStep::Report(seen, elapsed_ms) && *final(self)
                == *old(self),
            !old(self).ends(seen) ==> r == SettleStep::Sleep(old(self).sleep_ms) && *final(self)
                == (SettleWait {
                waited_ms: capped_sum(old(self).waited_ms, old(self).sleep_ms),
                ..*old(self)
            }),
    {
        let reached = match self.goal {
            SettleGoal::Frame(target) => seen.approx_eq(&target, self.eps),
            SettleGoal::Size(size) => crate::geom::approx_eq(seen.w, size.width, self.eps)
                && crate::geom::approx_eq(seen.h, size.height, self.eps),
        };
        if reached || self.waited_ms >= self.total_ms {
            SettleStep::Report(seen, elapsed_ms)
        } else {
            self.waited_ms = self.waited_ms.saturating_add(self.sleep_ms);
            SettleStep::Sleep(self.sleep_ms)
        }
    }
}

/// A wait after a number of readings that did not end it.
pub open spec fn after_sleeps(wait: SettleWait, n: nat) -> SettleWait
    decreases n,
{
    if n == 0 {
        wait
    } else {
        let before = after_sleeps(wait, (n - 1) as nat);
        SettleWait { waited_ms: capped_sum(before.waited_ms, before.sleep_ms), ..before }
    }
}

proof fn waited_grows(wait: SettleWait, n: nat)
    requires
        wait.waited_ms == 0,
    ensures
        after_sleeps(wait, n).waited_ms == if n * wait.sleep_ms > u64::MAX {
            u64::MAX as int
        } else {
            n * wait.sleep_ms
        },
        after_sleeps(wait, n).sleep_ms == wait.sleep_ms,
        after_sleeps(wait, n).total_ms == wait.total_ms,
    decreases n,
{
    let s = wait.sleep_ms as int;
    if n > 0 {
        waited_grows(wait, (n - 1) as nat);
        assert(n * s == (n - 1) * s + s) by (nonlinear_arith);
    } else {
        assert(0 * s == 0) by (nonlinear_arith);
    }
}

/// With a pause between readings, a wait ends however the window answers: at the
/// latest once the pauses add up to the total.
pub proof fn waits_are_bounded(wait: SettleWait, n: nat, seen: Rect)
    requires
        wait.waited_ms == 0,
        n * wait.sleep_ms >= wait.total_ms,
    ensures
        after_sleeps(wait, n).ends(seen),
{
    waited_grows(wait, n);
}

/// Setting a rectangle never touches an attribute that is known not to be
/// settable, and sets the others exactly once.
pub proof fn plan_sets_only_what_can_be_set(
    target: Rect,
    pos_first: bool,
    can_pos: Option<bool>,
    can_size: Option<bool>,
    stutter_ms: u64,
)
    ensures
        ({
            let plan = set_plan(target, pos_first, can_pos, can_size, stutter_ms);
            &&& can_pos == Some(false) ==> forall|i: int|
                0 <= i < plan.len() ==> !(#[trigger] plan[i] is Position)
            &&& can_size == Some(false) ==> forall|i: int|
                0 <= i < plan.len() ==> !(#[trigger] plan[i] is Size)
            &&& can_pos != Some(false) ==> plan.contains(
                SetStep::Position(Point { x: target.x, y: target.y }),
            )
            &&& can_size != Some(false) ==> plan.contains(
                SetStep::Size(Size { width: target.w, height: target.h }),
            )
            &&& can_pos != Some(false) && can_size != Some(false) ==> plan.len() == 3 && plan[1]
                == SetStep::Pause(stutter_ms) && (plan[0] is Position <==> pos_first)
        }),
{
    let plan = set_plan(target, pos_first, can_pos, can_size, stutter_ms);
    let last = plan.len() - 1;
    assert(plan[0] == plan.first());
    assert(plan[last] == plan.last());
    assert(plan.contains(plan[0]));
    assert(plan.contains(plan[last]));
}

/// What is asked of a window.
#[derive(Debug, Clone, Copy, PartialEq, Eq, Structural)]
pub enum ApplyKind {
    /// Take a position and a size.
    Frame {
        /// The rectangle to take.
        target: Rect,
        /// Whether position is set before size.
        pos_first: bool,
    },
    /// Take a size, wherever the window is.
    SizeOnly {
        /// The size to take.
        size: Size,
    },
    /// Take the target's position along one axis.
    Nudge {
        /// The rectangle to reach.
        target: Rect,
        /// The axis.
        axis: Axis,
    },
}

impl ApplyKind {
    /// What the window is waited for to take.
    pub open spec fn aim(self) -> SettleGoal {
        match self {
            ApplyKind::Frame { target, .. } => SettleGoal::Frame(target),
            ApplyKind::SizeOnly { size } => SettleGoal::Size(size),
            ApplyKind::Nudge { target, .. } => SettleGoal::Frame(target),
        }
    }
}

/// The answer that is waited for.
#[derive(Debug, Clone, Copy, PartialEq, Eq, Structural)]
pub enum ApplyStage {
    /// What can be set.
    Asking,
    /// Where the window is, before it is nudged.
    Looking,
    /// What came of a step.
    Setting(usize),
    /// Where the window is now.
    Reading,
    /// The end of a pause.
    Pausing,
    /// None: the end.
    Over,
}

/// What to do with a window.
#[derive(Debug)]
pub enum ApplyAction {
    /// Ask whether position and size can be set.
    AskSettable,
    /// Perform a step.
    Perform(SetStep),
    /// Read position and size.
    ReadFrame,
    /// Nothing: this is the result, with the rectangle that was observed and the
    /// milliseconds it took.
    Finish(Result<(Rect, u64), Error>),
}

/// What came of it.
#[derive(Debug)]
pub enum ApplyEvent {
    /// Whether position and size can be set, as far as that is known.
    Settable(Option<bool>, Option<bool>),
    /// The step is done.
    Done,
    /// Position and size.
    Frame(Rect),
    /// The accessibility layer reported an error.
    Failed(Error),
}

/// A request to a window that is being carried out.
#[derive(Debug)]
pub struct ApplyRun {
    /// What is asked.
    pub kind: ApplyKind,
    /// Pause between two setters.
    pub stutter_ms: u64,
    /// The steps, once they are known.
    pub steps: Vec<SetStep>,
    /// The answer that is waited for.
    pub stage: ApplyStage,
    /// The wait for the window to settle.
    pub wait: SettleWait,
}

impl ApplyRun {
    /// A request before its first answer.
    pub open spec fn started(
        self,
        kind: ApplyKind,
        eps: i64,
        timing: SettleTiming,
        stage: ApplyStage,
    ) -> bool {
        &&& self.kind == kind
        &&& self.stutter_ms == timing.apply_stutter_ms
        &&& self.stage == stage
        &&& self.wait == (SettleWait {
            goal: kind.aim(),
            eps,
            sleep_ms: timing.settle_sleep_ms,
            total_ms: timing.settle_total_ms,
            waited_ms: 0,
        })
    }

    /// Begin to set position and size.
    pub fn apply_and_wait(target: &Rect, pos_first: bool, eps: i64, timing: SettleTiming) -> (r: (
        Self,
        ApplyAction,
    ))
        ensures
            r.0.started(
                ApplyKind::Frame { target: *target, pos_first },
                eps,
                timing,
                ApplyStage::Asking,
            ),
            r.0.steps@.len() == 0,
            r.1 is AskSettable,
            r.0.valid(),
    {
        (
            ApplyRun {
                kind: ApplyKind::Frame { target: *target, pos_first },
                stutter_ms: timing.apply_stutter_ms,
                steps: Vec::new(),
                stage: ApplyStage::Asking,
                wait: SettleWait::new(SettleGoal::Frame(*target), eps, timing),
            },
            ApplyAction::AskSettable,
        )
    }

    /// Begin to set the size alone.
    pub fn apply_size_only_and_wait(width: i64, height: i64, eps: i64, timing: SettleTiming) -> (r:
        (Self, ApplyAction))
        ensures
            r.0.started(
                ApplyKind::SizeOnly { size: Size { width, height } },
                eps,
                timing,
                ApplyStage::Setting(0),
            ),
            r.0.steps@ == seq![SetStep::Size(Size { width, height })],
            r.1 == ApplyAction::Perform(SetStep::Size(Size { width, height })),
            r.0.valid(),
    {
        let size = Size { width, height };
        let mut steps: Vec<SetStep> = Vec::new();
        steps.push(SetStep::Size(size));
        assert(steps@ =~= seq![SetStep::Size(size)]);
        (
            ApplyRun {
                kind: ApplyKind::SizeOnly { size },
                stutter_ms: timing.apply_stutter_ms,
                steps,
                stage: ApplyStage::Setting(0),
                wait: SettleWait::new(SettleGoal::Size(size), eps, timing),
            },
            ApplyAction::Perform(SetStep::Size(size)),
        )
    }

    /// Begin to set the position along one axis.
    pub fn nudge_axis_pos_and_wait(target: &Rect, axis: Axis, eps: i64, timing: SettleTiming) -> (r:
        (Self, ApplyAction))
        ensures
            r.0.started(
                ApplyKind::Nudge { target: *target, axis },
                eps,
                timing,
                ApplyStage::Looking,
            ),
            r.0.steps@.len() == 0,
            r.1 is ReadFrame,
            r.0.valid(),
    {
        (
            ApplyRun {
                kind: ApplyKind::Nudge { target: *target, axis },
                stutter_ms: timing.apply_stutter_ms,
                steps: Vec::new(),
                stage: ApplyStage::Looking,
                wait: SettleWait::new(SettleGoal::Frame(*target), eps, timing),
            },
            ApplyAction::ReadFrame,
        )
    }

    /// Whether the request can be carried on.
    pub open spec fn valid(&self) -> bool {
        match self.stage {
            ApplyStage::Asking => self.kind is Frame,
            ApplyStage::Looking => self.kind is Nudge,
            ApplyStage::Setting(i) => i < self.steps@.len(),
            _ => true,
        }
    }

    /// Whether an event answers what is waited for.
    pub open spec fn fits(&self, event: ApplyEvent) -> bool {
        match self.stage {
            ApplyStage::Asking => event is Settable,
            ApplyStage::Looking | ApplyStage::Reading => event is Frame || event is Failed,
            ApplyStage::Setting(i) => event is Done || (event is Failed && (
            self.steps@[i as int] is Position || self.steps@[i as int] is Size)),
            ApplyStage::Pausing => event is Done,
            ApplyStage::Over => false,
        }
    }

    /// Whether the steps are `steps`, and the first of them comes next.
    pub open spec fn begins(&self, steps: Seq<SetStep>, after: ApplyRun, action: ApplyAction) -> bool {
        &&& after.steps@ == steps
        &&& after.stage == ApplyStage::Setting(0)
        &&& after.wait == self.wait
        &&& action == ApplyAction::Perform(steps[0])
    }

    /// Whether the request ends with a result.
    pub open spec fn ends_with(
        &self,
        result: Result<(Rect, u64), Error>,
        after: ApplyRun,
        action: ApplyAction,
    ) -> bool {
        &&& after.steps == self.steps
        &&& after.wait == self.wait
        &&& after.stage is Over
        &&& action == ApplyAction::Finish(result)
    }

    /// Whether `after` and `action` answer an event that came `elapsed_ms` after the
    /// request began. A setter that fails ends the request, except that a nudge is
    /// waited for all the same.
    pub open spec fn answered(
        &self,
        event: ApplyEvent,
        elapsed_ms: u64,
        after: ApplyRun,
        action: ApplyAction,
    ) -> bool {
        &&& after.kind == self.kind
        &&& after.stutter_ms == self.stutter_ms
        &&& match (self.stage, event) {
            (ApplyStage::Asking, ApplyEvent::Settable(can_pos, can_size)) => match self.kind {
                ApplyKind::Frame { target, pos_first } => self.begins(
                    set_plan(target, pos_first, can_pos, can_size, self.stutter_ms),
                    after,
                    action,
                ),
                _ => true,
            },
            (ApplyStage::Looking, ApplyEvent::Frame(seen)) => match self.kind {
                ApplyKind::Nudge { target, axis } => self.begins(
                    seq![
                        SetStep::Position(
                            match axis {
                                Axis::Horizontal => Point { x: target.x, y: seen.y },
                                Axis::Vertical => Point { x: seen.x, y: target.y },
                            },
                        ),
                    ],
                    after,
                    action,
                ),
                _ => true,
            },
            (ApplyStage::Setting(i), _) => if event is Failed && !(self.kind is Nudge) {
                self.ends_with(Err(event->Failed_0), after, action)
            } else {
                &&& after.steps == self.steps
                &&& after.wait == self.wait
                &&& if i + 1 < self.steps@.len() {
                    &&& after.stage == ApplyStage::Setting((i + 1) as usize)
                    &&& action == ApplyAction::Perform(self.steps@[i + 1])
                } else {
                    after.stage is Reading && action is ReadFrame
                }
            },
            (ApplyStage::Reading, ApplyEvent::Frame(seen)) => if self.wait.ends(seen) {
                self.ends_with(Ok((seen, elapsed_ms)), after, action)
            } else {
                &&& after.steps == self.steps
                &&& after.stage is Pausing
                &&& after.wait == (SettleWait {
                    waited_ms: capped_sum(self.wait.waited_ms, self.wait.sleep_ms),
                    ..self.wait
                })
                &&& action == ApplyAction::Perform(SetStep::Pause(self.wait.sleep_ms))
            },
            (_, ApplyEvent::Failed(e)) => self.ends_with(Err(e), after, action),
            _ => {
                &&& after.steps == self.steps
                &&& after.wait == self.wait
                &&& after.stage is Reading
                &&& action is ReadFrame
            },
        }
    }

    fn finish(&mut self, result: Result<(Rect, u64), Error>) -> (r: ApplyAction)
        ensures
            *final(self) == (ApplyRun { stage: ApplyStage::Over, ..*old(self) }),
            r == ApplyAction::Finish(result),
    {
        self.stage = ApplyStage::Over;
        ApplyAction::Finish(result)
    }

    fn read(&mut self) -> (r: ApplyAction)
        ensures
            *final(self) == (ApplyRun { stage: ApplyStage::Reading, ..*old(self) }),
            r is ReadFrame,
    {
        self.stage = ApplyStage::Reading;
        ApplyAction::ReadFrame
    }

    fn set(&mut self, steps: Vec<SetStep>) -> (r: ApplyAction)
        requires
            steps@.len() > 0,
        ensures
            *final(self) == (ApplyRun { stage: ApplyStage::Setting(0), steps, ..*old(self) }),
            r == ApplyAction::Perform(steps@[0]),
    {
        let first = steps[0];
        self.steps = steps;
        self.stage = ApplyStage::Setting(0);
        ApplyAction::Perform(first)
    }

    fn set_next(&mut self, i: usize) -> (r: ApplyAction)
        requires
            i < old(self).steps@.len(),
        ensures
            old(self).steps@.len() > i + 1 ==> {
                &&& *final(self) == (ApplyRun {
                    stage: ApplyStage::Setting((i + 1) as usize),
                    ..*old(self)
                })
                &&& r == ApplyAction::Perform(old(self).steps@[i + 1])
            },
            old(self).steps@.len() <= i + 1 ==> *final(self) == (ApplyRun {
                stage: ApplyStage::Reading,
                ..*old(self)
            }) && r is ReadFrame,
    {
        if i < self.steps.len() - 1 {
            self.stage = ApplyStage::Setting(i + 1);
            ApplyAction::Perform(self.steps[i + 1])
        } else {
            self.read()
        }
    }

    fn settle(&mut self, seen: Rect, elapsed_ms: u64) -> (r: ApplyAction)
        requires
            old(self).stage is Reading,
        ensures
            old(self).answered(ApplyEvent::Frame(seen), elapsed_ms, *final(self), r),
            final(self).valid(),
    {
        match self.wait.observe(seen, elapsed_ms) {
            SettleStep::Report(rect, took_ms) => self.finish(Ok((rect, took_ms))),
            SettleStep::Sleep(pause_ms) => {
                self.stage = ApplyStage::Pausing;
                ApplyAction::Perform(SetStep::Pause(pause_ms))
            },
        }
    }

    /// Take in what came of the last action, `elapsed_ms` after the request began, and
    /// say what to do next.
    pub fn next(&mut self, event: ApplyEvent, elapsed_ms: u64) -> (r: ApplyAction)
        requires
            old(self).valid(),
            old(self).fits(event),
        ensures
            old(self).answered(event, elapsed_ms, *final(self), r),
            final(self).valid(),
    {
        match self.stage {
            ApplyStage::Asking => {
                if let (ApplyKind::Frame { target, pos_first }, ApplyEvent::Settable(
                    can_pos,
                    can_size,
                )) = (self.kind, event) {
                    let timing = SettleTiming {
                        apply_stutter_ms: self.stutter_ms,
                        settle_sleep_ms: 0,
                        settle_total_ms: 0,
                    };
                    let steps = set_steps(&target, pos_first, can_pos, can_size, timing);
                    self.set(steps)
                } else {
                    self.read()
                }
            },
            ApplyStage::Looking => match (self.kind, event) {
                (ApplyKind::Nudge { target, axis }, ApplyEvent::Frame(seen)) => {
                    let at = nudge_position(Point { x: seen.x, y: seen.y }, &target, axis);
                    let mut steps: Vec<SetStep> = Vec::new();
                    steps.push(SetStep::Position(at));
                    assert(steps@ =~= seq![SetStep::Position(at)]);
                    self.set(steps)
                },
                (_, ApplyEvent::Failed(e)) => self.finish(Err(e)),
                _ => self.read(),
            },
            ApplyStage::Setting(i) => match (self.kind, event) {
                (ApplyKind::Nudge { .. }, _) => self.set_next(i),
                (_, ApplyEvent::Failed(e)) => self.finish(Err(e)),
                _ => self.set_next(i),
            },
            ApplyStage::Reading => match event {
                ApplyEvent::Frame(seen) => self.settle(seen, elapsed_ms),
                ApplyEvent::Failed(e) => self.finish(Err(e)),
                _ => self.read(),
            },
            ApplyStage::Pausing | ApplyStage::Over => self.read(),
        }
    }
}

/// A request succeeds only when the window has reached what was asked, within the
/// tolerance, or when the time to settle is up; and what it reports is what was read
/// last.
pub proof fn settled_or_out_of_time(
    run: ApplyRun,
    event: ApplyEvent,
    elapsed_ms: u64,
    after: ApplyRun,
    got: Rect,
    took_ms: u64,
)
    requires
        run.valid(),
        run.fits(event),
        run.answered(event, elapsed_ms, after, ApplyAction::Finish(Ok((got, took_ms)))),
    ensures
        event == ApplyEvent::Frame(got),
        took_ms == elapsed_ms,
        run.wait.goal.reached(got, run.wait.eps as int) || run.wait.waited_ms
            >= run.wait.total_ms,
{
}

/// A request ends with an error only when the accessibility layer reported it, and a
/// nudge that could not be set is no error.
pub proof fn errors_are_passed_on(
    run: ApplyRun,
    event: ApplyEvent,
    elapsed_ms: u64,
    after: ApplyRun,
    error: Error,
)
    requires
        run.valid(),
        run.fits(event),
        run.answered(event, elapsed_ms, after, ApplyAction::Finish(Err(error))),
    ensures
        event == ApplyEvent::Failed(error),
        run.stage is Setting ==> !(run.kind is Nudge),
{
}

} // verus!
