//! The accessibility operations that placement is built on, and a scripted
//! implementation of them that answers deterministically.

use vstd::prelude::*;
use std::collections::VecDeque;

use crate::error::Error;
use crate::geom::{Axis, Rect, UNITS_PER_POINT};
use crate::place::common::SettleTiming;

verus! {

/// Handle of an accessibility window element.
#[derive(Debug, Clone, Copy, PartialEq, Eq, Structural)]
pub struct AxElem {
    /// Identity of the element.
    pub id: u64,
}

/// A request to put a window somewhere.
pub enum PlaceCall {
    /// Set position and size, then wait for the window to settle.
    Apply {
        /// The operation on whose behalf the call is made.
        label: Seq<char>,
        /// The window.
        win: AxElem,
        /// The rectangle to set.
        target: Rect,
        /// Whether position is set before size.
        pos_first: bool,
        /// Tolerance.
        eps: i64,
        /// Pauses.
        timing: SettleTiming,
    },
    /// Set the size alone, then wait for the window to settle.
    SizeOnly {
        /// The operation on whose behalf the call is made.
        label: Seq<char>,
        /// The window.
        win: AxElem,
        /// The width to set.
        width: i64,
        /// The height to set.
        height: i64,
        /// Tolerance.
        eps: i64,
        /// Pauses.
        timing: SettleTiming,
    },
    /// Set the position along one axis, then wait for the window to settle.
    Nudge {
        /// The operation on whose behalf the call is made.
        label: Seq<char>,
        /// The window.
        win: AxElem,
        /// The rectangle to reach.
        target: Rect,
        /// The axis to set.
        axis: Axis,
        /// Tolerance.
        eps: i64,
        /// Pauses.
        timing: SettleTiming,
    },
    /// Shrink, move and grow.
    Fallback {
        /// The operation on whose behalf the call is made.
        label: Seq<char>,
        /// The window.
        win: AxElem,
        /// The rectangle to reach.
        target: Rect,
        /// Tolerance.
        eps: i64,
        /// Pauses.
        timing: SettleTiming,
    },
}

/// One exchange with the accessibility layer.
pub enum AxEvent {
    /// It was asked which attributes can be set.
    Settable {
        /// The window.
        win: AxElem,
        /// Whether the position can be set.
        can_pos: Option<bool>,
        /// Whether the size can be set.
        can_size: Option<bool>,
    },
    /// It was asked to put a window somewhere.
    Placed {
        /// The request.
        call: PlaceCall,
        /// The rectangle observed and the milliseconds it took to settle.
        reply: Result<(Rect, u64), Error>,
    },
    /// It was asked to park a window.
    Parked {
        /// The operation on whose behalf the call was made.
        label: Seq<char>,
        /// The window.
        win: AxElem,
        /// The visible frame to park in.
        visible_frame: Rect,
        /// The rectangle to be reached afterwards.
        target: Rect,
        /// Tolerance.
        eps: i64,
        /// Pauses.
        timing: SettleTiming,
        /// Whether the window was parked.
        outcome: Result<(), Error>,
    },
}

/// Whether an adapter goes on from where it was: it began with the same windows,
/// and is as true to them as before.
pub open spec fn carries_on<A: AxAdapter>(before: A, after: A) -> bool {
    &&& after.origin() == before.origin()
    &&& before.true_to_script() ==> after.true_to_script()
}

/// The accessibility operations that placement is built on.
///
/// An adapter keeps the exchanges that it took part in, oldest first: each
/// method adds exactly one, with the arguments it was given and the answer it
/// returned. What is proved of a placement holds for adapters that do so.
pub trait AxAdapter: Sized {
    /// The exchanges so far. Every adapter has to say what they are: with the default,
    /// which stays empty, no method can add one as it promises.
    open spec fn log(&self) -> Seq<AxEvent> {
        Seq::empty()
    }

    /// The scripted windows that the exchanges began with. An adapter over real
    /// windows has none.
    open spec fn origin(&self) -> Scripted {
        Scripted { windows: Seq::empty(), since: 0 }
    }

    /// Whether the exchanges are those that the scripted windows make.
    open spec fn true_to_script(&self) -> bool {
        true
    }

    /// Whether position and size can be set, as far as that is known.
    fn settable_pos_size(&mut self, win: AxElem) -> (r: (Option<bool>, Option<bool>))
        ensures
            final(self).log() == old(self).log().push(
                AxEvent::Settable { win, can_pos: r.0, can_size: r.1 },
            ),
            final(self).origin() == old(self).origin(),
            old(self).true_to_script() ==> final(self).true_to_script(),
    ;

    /// Set position and size, then wait for the window to settle.
    fn apply_and_wait(
        &mut self,
        op_label: &str,
        win: AxElem,
        target: &Rect,
        pos_first: bool,
        eps: i64,
        timing: SettleTiming,
    ) -> (r: Result<(Rect, u64), Error>)
        ensures
            final(self).log() == old(self).log().push(
                AxEvent::Placed {
                    call: PlaceCall::Apply {
                        label: op_label@,
                        win,
                        target: *target,
                        pos_first,
                        eps,
                        timing,
                    },
                    reply: r,
                },
            ),
            final(self).origin() == old(self).origin(),
            old(self).true_to_script() ==> final(self).true_to_script(),
    ;

    /// Set the size alone, then wait for the window to settle.
    fn apply_size_only_and_wait(
        &mut self,
        op_label: &str,
        win: AxElem,
        width: i64,
        height: i64,
        eps: i64,
        timing: SettleTiming,
    ) -> (r: Result<(Rect, u64), Error>)
        ensures
            final(self).log() == old(self).log().push(
                AxEvent::Placed {
                    call: PlaceCall::SizeOnly {
                        label: op_label@,
                        win,
                        width,
                        height,
                        eps,
                        timing,
                    },
                    reply: r,
                },
            ),
            final(self).origin() == old(self).origin(),
            old(self).true_to_script() ==> final(self).true_to_script(),
    ;

    /// Set the position along one axis, then wait for the window to settle.
    fn nudge_axis_pos_and_wait(
        &mut self,
        op_label: &str,
        win: AxElem,
        target: &Rect,
        axis: Axis,
        eps: i64,
        timing: SettleTiming,
    ) -> (r: Result<(Rect, u64), Error>)
        ensures
            final(self).log() == old(self).log().push(
                AxEvent::Placed {
                    call: PlaceCall::Nudge {
                        label: op_label@,
                        win,
                        target: *target,
                        axis,
                        eps,
                        timing,
                    },
                    reply: r,
                },
            ),
            final(self).origin() == old(self).origin(),
            old(self).true_to_script() ==> final(self).true_to_script(),
    ;

    /// Shrink, move and grow.
    fn fallback_shrink_move_grow(
        &mut self,
        op_label: &str,
        win: AxElem,
        target: &Rect,
        eps: i64,
        timing: SettleTiming,
    ) -> (r: Result<(Rect, u64), Error>)
        ensures
            final(self).log() == old(self).log().push(
                AxEvent::Placed {
                    call: PlaceCall::Fallback {
                        label: op_label@,
                        win,
                        target: *target,
                        eps,
                        timing,
                    },
                    reply: r,
                },
            ),
            final(self).origin() == old(self).origin(),
            old(self).true_to_script() ==> final(self).true_to_script(),
    ;

    /// Park the window inside the visible frame at a small, safe size.
    fn preflight_safe_park(
        &mut self,
        op_label: &str,
        win: AxElem,
        visible_frame: &Rect,
        target: &Rect,
        eps: i64,
        timing: SettleTiming,
    ) -> (r: Result<(), Error>)
        ensures
            final(self).log() == old(self).log().push(
                AxEvent::Parked {
                    label: op_label@,
                    win,
                    visible_frame: *visible_frame,
                    target: *target,
                    eps,
                    timing,
                    outcome: r,
                },
            ),
            final(self).origin() == old(self).origin(),
            old(self).true_to_script() ==> final(self).true_to_script(),
    ;
}

/// A scripted answer to a placement request.
#[derive(Debug, Clone, Copy, PartialEq, Eq, Structural)]
pub struct FakeApplyResponse {
    /// The rectangle to report.
    pub rect: Rect,
    /// The settle time to report.
    pub settle_ms: u64,
    /// Whether the window keeps the reported rectangle.
    pub persist: bool,
}

impl FakeApplyResponse {
    /// The answer that reports `rect` and keeps it.
    pub open spec fn kept(rect: Rect) -> FakeApplyResponse {
        FakeApplyResponse { rect, settle_ms: 10, persist: true }
    }

    /// The answer that reports `rect` and keeps it.
    pub fn new(rect: Rect) -> (r: Self)
        ensures
            r == FakeApplyResponse::kept(rect),
    {
        FakeApplyResponse { rect, settle_ms: 10, persist: true }
    }

    /// The same answer, kept or not.
    pub fn with_persist(self, persist: bool) -> (r: Self)
        ensures
            r == (FakeApplyResponse { persist, ..self }),
    {
        FakeApplyResponse { rect: self.rect, settle_ms: self.settle_ms, persist }
    }
}

/// A request that the scripted adapter received.
#[derive(Debug)]
pub enum FakeOp {
    /// Set position and size.
    Apply {
        /// Label of the operation.
        label: String,
        /// Whether position was set first.
        pos_first: bool,
    },
    /// Set the size alone.
    SizeOnly {
        /// Label of the operation.
        label: String,
    },
    /// Set the position along one axis.
    Nudge {
        /// Label of the operation.
        label: String,
        /// The axis.
        axis: Axis,
    },
    /// Shrink, move and grow.
    Fallback {
        /// Label of the operation.
        label: String,
    },
    /// Park the window.
    Preflight {
        /// Label of the operation.
        label: String,
    },
}

/// A received request, with its label as text.
pub enum FakeCall {
    /// Set position and size.
    Apply {
        /// Label of the operation.
        label: Seq<char>,
        /// Whether position was set first.
        pos_first: bool,
    },
    /// Set the size alone.
    SizeOnly {
        /// Label of the operation.
        label: Seq<char>,
    },
    /// Set the position along one axis.
    Nudge {
        /// Label of the operation.
        label: Seq<char>,
        /// The axis.
        axis: Axis,
    },
    /// Shrink, move and grow.
    Fallback {
        /// Label of the operation.
        label: Seq<char>,
    },
    /// Park the window.
    Preflight {
        /// Label of the operation.
        label: Seq<char>,
    },
}

impl View for FakeOp {
    type V = FakeCall;

    open spec fn view(&self) -> FakeCall {
        match *self {
            FakeOp::Apply { label, pos_first } => FakeCall::Apply { label: label@, pos_first },
            FakeOp::SizeOnly { label } => FakeCall::SizeOnly { label: label@ },
            FakeOp::Nudge { label, axis } => FakeCall::Nudge { label: label@, axis },
            FakeOp::Fallback { label } => FakeCall::Fallback { label: label@ },
            FakeOp::Preflight { label } => FakeCall::Preflight { label: label@ },
        }
    }
}

impl Clone for FakeOp {
    fn clone(&self) -> (r: Self)
        ensures
            r == *self,
    {
        match self {
            FakeOp::Apply { label, pos_first } => FakeOp::Apply {
                label: label.clone(),
                pos_first: *pos_first,
            },
            FakeOp::SizeOnly { label } => FakeOp::SizeOnly { label: label.clone() },
            FakeOp::Nudge { label, axis } => FakeOp::Nudge { label: label.clone(), axis: *axis },
            FakeOp::Fallback { label } => FakeOp::Fallback { label: label.clone() },
            FakeOp::Preflight { label } => FakeOp::Preflight { label: label.clone() },
        }
    }
}

/// The received requests, with their labels as text.
pub open spec fn calls_of(ops: Seq<FakeOp>) -> Seq<FakeCall> {
    Seq::new(ops.len(), |i: int| ops[i]@)
}

/// How a scripted window starts out and answers.
#[derive(Debug)]
pub struct FakeWindowConfig {
    /// Where the window is.
    pub initial_rect: Rect,
    /// Whether its position can be set.
    pub can_set_pos: Option<bool>,
    /// Whether its size can be set.
    pub can_set_size: Option<bool>,
    /// The process that owns it.
    pub pid: Option<i32>,
    /// Answers to setting position and size.
    pub apply_script: Vec<FakeApplyResponse>,
    /// Answers to setting the size.
    pub size_only_script: Vec<FakeApplyResponse>,
    /// Answers to nudges.
    pub nudge_script: Vec<FakeApplyResponse>,
    /// Answers to shrink, move and grow.
    pub fallback_script: Vec<FakeApplyResponse>,
    /// Answers to parking.
    pub preflight_script: Vec<Result<(), Error>>,
}

impl Default for FakeWindowConfig {
    fn default() -> (r: Self)
        ensures
            r.initial_rect == (Rect {
                x: 0,
                y: 0,
                w: (800 * UNITS_PER_POINT) as i64,
                h: (600 * UNITS_PER_POINT) as i64,
            }),
            r.can_set_pos == Some(true),
            r.can_set_size == Some(true),
            r.pid == Some(4242i32),
            r.apply_script@.len() == 0,
            r.size_only_script@.len() == 0,
            r.nudge_script@.len() == 0,
            r.fallback_script@.len() == 0,
            r.preflight_script@.len() == 0,
    {
        FakeWindowConfig {
            initial_rect: Rect::from_points(0, 0, 800, 600),
            can_set_pos: Some(true),
            can_set_size: Some(true),
            pid: Some(4242),
            apply_script: Vec::new(),
            size_only_script: Vec::new(),
            nudge_script: Vec::new(),
            fallback_script: Vec::new(),
            preflight_script: Vec::new(),
        }
    }
}

/// A scripted window.
struct FakeWindow {
    can_set_pos: Option<bool>,
    can_set_size: Option<bool>,
    pid: Option<i32>,
    rect: Rect,
    apply: VecDeque<FakeApplyResponse>,
    size_only: VecDeque<FakeApplyResponse>,
    nudge: VecDeque<FakeApplyResponse>,
    fallback: VecDeque<FakeApplyResponse>,
    preflight: VecDeque<Result<(), Error>>,
    ops: Vec<FakeOp>,
}

/// A scripted window: its state, the answers still to come, and the requests
/// that it has received.
pub struct FakeWindowView {
    /// Whether the position can be set.
    pub can_set_pos: Option<bool>,
    /// Whether the size can be set.
    pub can_set_size: Option<bool>,
    /// The owning process.
    pub pid: Option<i32>,
    /// Where the window is.
    pub rect: Rect,
    /// Answers to setting position and size.
    pub apply: Seq<FakeApplyResponse>,
    /// Answers to setting the size.
    pub size_only: Seq<FakeApplyResponse>,
    /// Answers to nudges.
    pub nudge: Seq<FakeApplyResponse>,
    /// Answers to shrink, move and grow.
    pub fallback: Seq<FakeApplyResponse>,
    /// Answers to parking.
    pub preflight: Seq<Result<(), Error>>,
    /// Requests received, oldest first.
    pub ops: Seq<FakeCall>,
}

impl View for FakeWindow {
    type V = FakeWindowView;

    closed spec fn view(&self) -> FakeWindowView {
        FakeWindowView {
            can_set_pos: self.can_set_pos,
            can_set_size: self.can_set_size,
            pid: self.pid,
            rect: self.rect,
            apply: self.apply@,
            size_only: self.size_only@,
            nudge: self.nudge@,
            fallback: self.fallback@,
            preflight: self.preflight@,
            ops: calls_of(self.ops@),
        }
    }
}

/// The next scripted answer: the oldest one, or the target itself once the
/// script has run out.
pub open spec fn next_response(
    queue: Seq<FakeApplyResponse>,
    target: Rect,
) -> FakeApplyResponse {
    if queue.len() > 0 {
        queue[0]
    } else {
        FakeApplyResponse::kept(target)
    }
}

/// The script without its oldest answer.
pub open spec fn rest<T>(queue: Seq<T>) -> Seq<T> {
    if queue.len() > 0 {
        queue.drop_first()
    } else {
        queue
    }
}

/// Where the window is after an answer.
pub open spec fn moved_to(rect: Rect, answer: FakeApplyResponse) -> Rect {
    if answer.persist {
        answer.rect
    } else {
        rect
    }
}

impl FakeWindowView {
    /// The window after setting position and size.
    pub open spec fn applied(self, label: Seq<char>, target: Rect, pos_first: bool) -> Self {
        let answer = next_response(self.apply, target);
        FakeWindowView {
            rect: moved_to(self.rect, answer),
            apply: rest(self.apply),
            ops: self.ops.push(FakeCall::Apply { label, pos_first }),
            ..self
        }
    }

    /// The target of a request to set the size alone.
    pub open spec fn resized_target(self, width: i64, height: i64) -> Rect {
        Rect { w: width, h: height, ..self.rect }
    }

    /// The window after setting the size alone: its position stays.
    pub open spec fn resized(self, label: Seq<char>, width: i64, height: i64) -> Self {
        let answer = next_response(self.size_only, self.resized_target(width, height));
        FakeWindowView {
            rect: if answer.persist {
                Rect { w: answer.rect.w, h: answer.rect.h, ..self.rect }
            } else {
                self.rect
            },
            size_only: rest(self.size_only),
            ops: self.ops.push(FakeCall::SizeOnly { label }),
            ..self
        }
    }

    /// The window after a nudge.
    pub open spec fn nudged(self, label: Seq<char>, target: Rect, axis: Axis) -> Self {
        let answer = next_response(self.nudge, target);
        FakeWindowView {
            rect: moved_to(self.rect, answer),
            nudge: rest(self.nudge),
            ops: self.ops.push(FakeCall::Nudge { label, axis }),
            ..self
        }
    }

    /// The window after shrink, move and grow.
    pub open spec fn regrown(self, label: Seq<char>, target: Rect) -> Self {
        let answer = next_response(self.fallback, target);
        FakeWindowView {
            rect: moved_to(self.rect, answer),
            fallback: rest(self.fallback),
            ops: self.ops.push(FakeCall::Fallback { label }),
            ..self
        }
    }

    /// The answer to a request to park the window.
    pub open spec fn park_answer(self) -> Result<(), Error> {
        if self.preflight.len() > 0 {
            self.preflight[0]
        } else {
            Ok(())
        }
    }

    /// The window after a request to park it.
    pub open spec fn parked(self, label: Seq<char>, target: Rect) -> Self {
        FakeWindowView {
            rect: if self.park_answer() is Ok {
                target
            } else {
                self.rect
            },
            preflight: rest(self.preflight),
            ops: self.ops.push(FakeCall::Preflight { label }),
            ..self
        }
    }
}

/// Scripted windows, and how many exchanges there were before them.
pub struct Scripted {
    /// The windows.
    pub windows: Seq<FakeWindowView>,
    /// The exchanges before.
    pub since: int,
}

/// The window that a request is about.
pub open spec fn window_of(call: PlaceCall) -> AxElem {
    match call {
        PlaceCall::Apply { win, .. } => win,
        PlaceCall::SizeOnly { win, .. } => win,
        PlaceCall::Nudge { win, .. } => win,
        PlaceCall::Fallback { win, .. } => win,
    }
}

impl FakeWindowView {
    /// The window after a request.
    pub open spec fn after(self, call: PlaceCall) -> Self {
        match call {
            PlaceCall::Apply { label, target, pos_first, .. } => self.applied(
                label,
                target,
                pos_first,
            ),
            PlaceCall::SizeOnly { label, width, height, .. } => self.resized(label, width, height),
            PlaceCall::Nudge { label, target, axis, .. } => self.nudged(label, target, axis),
            PlaceCall::Fallback { label, target, .. } => self.regrown(label, target),
        }
    }

    /// The scripted answer to a request.
    pub open spec fn answer(self, call: PlaceCall) -> FakeApplyResponse {
        match call {
            PlaceCall::Apply { target, .. } => next_response(self.apply, target),
            PlaceCall::SizeOnly { width, height, .. } => next_response(
                self.size_only,
                self.resized_target(width, height),
            ),
            PlaceCall::Nudge { target, .. } => next_response(self.nudge, target),
            PlaceCall::Fallback { target, .. } => next_response(self.fallback, target),
        }
    }
}

/// The scripted windows after an exchange.
pub open spec fn windows_after(windows: Seq<FakeWindowView>, event: AxEvent) -> Seq<
    FakeWindowView,
> {
    match event {
        AxEvent::Settable { .. } => windows,
        AxEvent::Placed { call, .. } => {
            let at = window_of(call).id as int;
            if at < windows.len() {
                windows.update(at, windows[at].after(call))
            } else {
                windows
            }
        },
        AxEvent::Parked { label, win, target, .. } => if win.id < windows.len() {
            windows.update(win.id as int, windows[win.id as int].parked(label, target))
        } else {
            windows
        },
    }
}

/// Whether the answer in an exchange is the one that the scripted windows give.
pub open spec fn answered_by(windows: Seq<FakeWindowView>, event: AxEvent) -> bool {
    match event {
        AxEvent::Settable { win, can_pos, can_size } => if win.id < windows.len() {
            can_pos == windows[win.id as int].can_set_pos && can_size
                == windows[win.id as int].can_set_size
        } else {
            can_pos is None && can_size is None
        },
        AxEvent::Placed { call, reply } => {
            let at = window_of(call).id as int;
            if at < windows.len() {
                reply == Ok::<(Rect, u64), Error>(
                    (windows[at].answer(call).rect, windows[at].answer(call).settle_ms),
                )
            } else {
                reply == Err::<(Rect, u64), Error>(Error::WindowGone)
            }
        },
        AxEvent::Parked { win, outcome, .. } => if win.id < windows.len() {
            outcome == windows[win.id as int].park_answer()
        } else {
            outcome == Err::<(), Error>(Error::WindowGone)
        },
    }
}

/// The scripted windows after a series of exchanges.
pub open spec fn replayed(windows: Seq<FakeWindowView>, events: Seq<AxEvent>) -> Seq<
    FakeWindowView,
>
    decreases events.len(),
{
    if events.len() == 0 {
        windows
    } else {
        windows_after(replayed(windows, events.drop_last()), events.last())
    }
}

/// Whether every answer in a series of exchanges is the one that the scripted
/// windows give.
pub open spec fn faithful(windows: Seq<FakeWindowView>, events: Seq<AxEvent>) -> bool
    decreases events.len(),
{
    events.len() == 0 || {
        &&& faithful(windows, events.drop_last())
        &&& answered_by(replayed(windows, events.drop_last()), events.last())
    }
}

/// Each answer of scripted windows is the one that their scripts hold for the requests
/// so far.
pub proof fn answers_follow_the_script(
    windows: Seq<FakeWindowView>,
    events: Seq<AxEvent>,
    i: int,
)
    requires
        faithful(windows, events),
        0 <= i < events.len(),
    ensures
        answered_by(replayed(windows, events.take(i)), events[i]),
        replayed(windows, events.take(i + 1)) == windows_after(
            replayed(windows, events.take(i)),
            events[i],
        ),
    decreases events.len(),
{
    assert(events.take(i + 1).drop_last() =~= events.take(i));
    assert(events.take(i + 1).last() == events[i]);
    if i + 1 == events.len() {
        assert(events.take(i) =~= events.drop_last());
    } else {
        let shorter = events.drop_last();
        answers_follow_the_script(windows, shorter, i);
        assert(shorter.take(i) =~= events.take(i));
    }
}

/// One more exchange with the scripted windows.
proof fn one_more_answer(origin: Scripted, log: Seq<AxEvent>, event: AxEvent)
    requires
        0 <= origin.since <= log.len(),
        faithful(origin.windows, log.skip(origin.since)),
        answered_by(replayed(origin.windows, log.skip(origin.since)), event),
    ensures
        faithful(origin.windows, log.push(event).skip(origin.since)),
        replayed(origin.windows, log.push(event).skip(origin.since)) == windows_after(
            replayed(origin.windows, log.skip(origin.since)),
            event,
        ),
{
    let longer = log.push(event).skip(origin.since);
    assert(longer.drop_last() =~= log.skip(origin.since));
    assert(longer.last() == event);
}

impl FakeWindow {
    fn push_ops(&mut self, op: FakeOp)
        ensures
            final(self)@ == (FakeWindowView { ops: old(self)@.ops.push(op@), ..old(self)@ }),
    {
        self.ops.push(op);
        assert(calls_of(self.ops@) =~= calls_of(old(self).ops@).push(op@));
    }

    fn pop_response(queue: &mut VecDeque<FakeApplyResponse>, target: &Rect) -> (r:
        FakeApplyResponse)
        ensures
            r == next_response(old(queue)@, *target),
            final(queue)@ == rest(old(queue)@),
    {
        match queue.pop_front() {
            Some(answer) => {
                assert(queue@ =~= old(queue)@.drop_first());
                answer
            },
            None => FakeApplyResponse::new(*target),
        }
    }
}

/// An adapter over scripted windows.
pub struct FakeAxAdapter {
    windows: Vec<FakeWindow>,
    log: Ghost<Seq<AxEvent>>,
    origin: Ghost<Scripted>,
}

impl View for FakeAxAdapter {
    type V = Seq<FakeWindowView>;

    closed spec fn view(&self) -> Seq<FakeWindowView> {
        Seq::new(self.windows@.len(), |i: int| self.windows@[i]@)
    }
}

/// The queue that holds the given answers in order.
fn queue_of<T>(script: Vec<T>) -> (q: VecDeque<T>)
    ensures
        q@ == script@,
{
    let mut pending = script;
    let mut q: VecDeque<T> = VecDeque::new();
    let ghost whole = script@;
    while pending.len() > 0
        invariant
            whole == pending@ + q@,
        decreases pending.len(),
    {
        let ghost before = pending@;
        let ghost tail = q@;
        match pending.pop() {
            Some(item) => {
                q.push_front(item);
                assert(before =~= pending@.push(item));
                assert(q@ =~= seq![item] + tail);
                assert(pending@ + q@ =~= before + tail);
            },
            None => {
                return q;
            },
        }
    }
    assert(whole =~= q@);
    q
}

/// Append answers to a queue, in order.
fn extend_queue<T>(queue: &mut VecDeque<T>, items: Vec<T>)
    ensures
        final(queue)@ == old(queue)@ + items@,
{
    let mut more = queue_of(items);
    queue.append(&mut more);
}

impl FakeAxAdapter {
    /// An adapter without windows.
    pub fn new() -> (r: Self)
        ensures
            r@ == Seq::<FakeWindowView>::empty(),
            r.log() == Seq::<AxEvent>::empty(),
            r.freshly_scripted(),
    {
        let r = FakeAxAdapter {
            windows: Vec::new(),
            log: Ghost(Seq::empty()),
            origin: Ghost(Scripted { windows: Seq::empty(), since: 0 }),
        };
        assert(r@ =~= Seq::empty());
        assert(r.log().skip(0) =~= Seq::empty());
        r
    }

    /// Whether there was no exchange since the windows were scripted.
    pub open spec fn freshly_scripted(&self) -> bool {
        &&& self.origin() == (Scripted { windows: self@, since: self.log().len() as int })
        &&& self.true_to_script()
    }

    /// The windows have been scripted anew.
    fn start_over(&mut self)
        ensures
            final(self)@ == old(self)@,
            final(self).log() == old(self).log(),
            final(self).freshly_scripted(),
    {
        self.origin = Ghost(Scripted { windows: self@, since: self.log@.len() as int });
        assert(self@ =~= old(self)@);
        assert(self.log@.skip(self.log@.len() as int) =~= Seq::empty());
    }

    /// Add a window and return its handle.
    pub fn new_window(&mut self, config: FakeWindowConfig) -> (r: AxElem)
        ensures
            r.id == old(self)@.len(),
            final(self)@ == old(self)@.push(
                FakeWindowView {
                    can_set_pos: config.can_set_pos,
                    can_set_size: config.can_set_size,
                    pid: config.pid,
                    rect: config.initial_rect,
                    apply: config.apply_script@,
                    size_only: config.size_only_script@,
                    nudge: config.nudge_script@,
                    fallback: config.fallback_script@,
                    preflight: config.preflight_script@,
                    ops: Seq::empty(),
                },
            ),
            final(self).log() == old(self).log(),
            final(self).freshly_scripted(),
    {
        let id: u64 = self.windows.len() as u64;
        let win = FakeWindow {
            can_set_pos: config.can_set_pos,
            can_set_size: config.can_set_size,
            pid: config.pid,
            rect: config.initial_rect,
            apply: queue_of(config.apply_script),
            size_only: queue_of(config.size_only_script),
            nudge: queue_of(config.nudge_script),
            fallback: queue_of(config.fallback_script),
            preflight: queue_of(config.preflight_script),
            ops: Vec::new(),
        };
        assert(calls_of(win.ops@) =~= Seq::empty());
        let ghost added = win@;
        self.windows.push(win);
        assert(self@ =~= old(self)@.push(added));
        self.start_over();
        AxElem { id }
    }

    /// Whether the handle names a window of this adapter.
    pub open spec fn knows(&self, win: AxElem) -> bool {
        win.id < self@.len()
    }

    fn index_of(&self, win: AxElem) -> (r: Option<usize>)
        ensures
            r matches Some(i) ==> i == win.id && self.knows(win) && i < self.windows@.len(),
            r is None ==> !self.knows(win),
    {
        if win.id < self.windows.len() as u64 {
            Some(win.id as usize)
        } else {
            None
        }
    }

    /// Add answers to setting position and size.
    pub fn push_apply(&mut self, win: AxElem, responses: Vec<FakeApplyResponse>)
        ensures
            !old(self).knows(win) ==> final(self)@ == old(self)@,
            old(self).knows(win) ==> final(self)@ == old(self)@.update(
                win.id as int,
                FakeWindowView {
                    apply: old(self)@[win.id as int].apply + responses@,
                    ..old(self)@[win.id as int]
                },
            ),
            final(self).log() == old(self).log(),
            final(self).freshly_scripted(),
    {
        if let Some(i) = self.index_of(win) {
            extend_queue(&mut self.windows[i].apply, responses);
            assert(self@ =~= old(self)@.update(i as int, self.windows@[i as int]@));
        }
        self.start_over();
    }

    /// Add answers to setting the size.
    pub fn push_size_only(&mut self, win: AxElem, responses: Vec<FakeApplyResponse>)
        ensures
            !old(self).knows(win) ==> final(self)@ == old(self)@,
            old(self).knows(win) ==> final(self)@ == old(self)@.update(
                win.id as int,
                FakeWindowView {
                    size_only: old(self)@[win.id as int].size_only + responses@,
                    ..old(self)@[win.id as int]
                },
            ),
            final(self).log() == old(self).log(),
            final(self).freshly_scripted(),
    {
        if let Some(i) = self.index_of(win) {
            extend_queue(&mut self.windows[i].size_only, responses);
            assert(self@ =~= old(self)@.update(i as int, self.windows@[i as int]@));
        }
        self.start_over();
    }

    /// Add answers to nudges.
    pub fn push_nudge(&mut self, win: AxElem, responses: Vec<FakeApplyResponse>)
        ensures
            !old(self).knows(win) ==> final(self)@ == old(self)@,
            old(self).knows(win) ==> final(self)@ == old(self)@.update(
                win.id as int,
                FakeWindowView {
                    nudge: old(self)@[win.id as int].nudge + responses@,
                    ..old(self)@[win.id as int]
                },
            ),
            final(self).log() == old(self).log(),
            final(self).freshly_scripted(),
    {
        if let Some(i) = self.index_of(win) {
            extend_queue(&mut self.windows[i].nudge, responses);
            assert(self@ =~= old(self)@.update(i as int, self.windows@[i as int]@));
        }
        self.start_over();
    }

    /// Add answers to shrink, move and grow.
    pub fn push_fallback(&mut self, win: AxElem, responses: Vec<FakeApplyResponse>)
        ensures
            !old(self).knows(win) ==> final(self)@ == old(self)@,
            old(self).knows(win) ==> final(self)@ == old(self)@.update(
                win.id as int,
                FakeWindowView {
                    fallback: old(self)@[win.id as int].fallback + responses@,
                    ..old(self)@[win.id as int]
                },
            ),
            final(self).log() == old(self).log(),
            final(self).freshly_scripted(),
    {
        if let Some(i) = self.index_of(win) {
            extend_queue(&mut self.windows[i].fallback, responses);
            assert(self@ =~= old(self)@.update(i as int, self.windows@[i as int]@));
        }
        self.start_over();
    }

    /// Add answers to parking.
    pub fn push_preflight(&mut self, win: AxElem, outcomes: Vec<Result<(), Error>>)
        ensures
            !old(self).knows(win) ==> final(self)@ == old(self)@,
            old(self).knows(win) ==> final(self)@ == old(self)@.update(
                win.id as int,
                FakeWindowView {
                    preflight: old(self)@[win.id as int].preflight + outcomes@,
                    ..old(self)@[win.id as int]
                },
            ),
            final(self).log() == old(self).log(),
            final(self).freshly_scripted(),
    {
        if let Some(i) = self.index_of(win) {
            extend_queue(&mut self.windows[i].preflight, outcomes);
            assert(self@ =~= old(self)@.update(i as int, self.windows@[i as int]@));
        }
        self.start_over();
    }

    /// The requests that a window has received, oldest first.
    pub fn operations(&self, win: AxElem) -> (r: Vec<FakeOp>)
        ensures
            calls_of(r@) == (if self.knows(win) {
                self@[win.id as int].ops
            } else {
                Seq::empty()
            }),
    {
        let mut out: Vec<FakeOp> = Vec::new();
        if let Some(w) = self.index_of(win) {
            let mut i: usize = 0;
            while i < self.windows[w].ops.len()
                invariant
                    w < self.windows@.len(),
                    i <= self.windows@[w as int].ops@.len(),
                    out@ == self.windows@[w as int].ops@.take(i as int),
                decreases self.windows@[w as int].ops@.len() - i,
            {
                out.push(self.windows[w].ops[i].clone());
                assert(self.windows@[w as int].ops@.take(i + 1) =~= self.windows@[w as int].ops@.take(
                    i as int,
                ).push(self.windows@[w as int].ops@[i as int]));
                i = i + 1;
            }
            assert(out@ =~= self.windows@[w as int].ops@);
        } else {
            assert(calls_of(out@) =~= Seq::empty());
        }
        out
    }

    /// Where a window is.
    pub fn current_rect(&self, win: AxElem) -> (r: Option<Rect>)
        ensures
            r == (if self.knows(win) {
                Some(self@[win.id as int].rect)
            } else {
                None
            }),
    {
        match self.index_of(win) {
            Some(i) => Some(self.windows[i].rect),
            None => None,
        }
    }

    /// The process that owns a window.
    pub fn element_pid(&self, win: AxElem) -> (r: Option<i32>)
        ensures
            r == (if self.knows(win) {
                self@[win.id as int].pid
            } else {
                None
            }),
    {
        match self.index_of(win) {
            Some(i) => self.windows[i].pid,
            None => None,
        }
    }
}

impl AxAdapter for FakeAxAdapter {
    closed spec fn log(&self) -> Seq<AxEvent> {
        self.log@
    }

    closed spec fn origin(&self) -> Scripted {
        self.origin@
    }

    open spec fn true_to_script(&self) -> bool {
        let events = self.log().skip(self.origin().since);
        &&& 0 <= self.origin().since <= self.log().len()
        &&& faithful(self.origin().windows, events)
        &&& self@ == replayed(self.origin().windows, events)
    }

    fn settable_pos_size(&mut self, win: AxElem) -> (r: (Option<bool>, Option<bool>))
        ensures
            final(self)@ == old(self)@,
            r == (if old(self).knows(win) {
                (old(self)@[win.id as int].can_set_pos, old(self)@[win.id as int].can_set_size)
            } else {
                (None, None)
            }),
    {
        let r = match self.index_of(win) {
            Some(i) => (self.windows[i].can_set_pos, self.windows[i].can_set_size),
            None => (None, None),
        };
        self.log = Ghost(
            self.log@.push(AxEvent::Settable { win, can_pos: r.0, can_size: r.1 }),
        );
        assert(self@ =~= old(self)@);
        proof {
            if old(self).true_to_script() {
                one_more_answer(old(self).origin@, old(self).log@, self.log@.last());
            }
        }
        r
    }

    fn apply_and_wait(
        &mut self,
        op_label: &str,
        win: AxElem,
        target: &Rect,
        pos_first: bool,
        eps: i64,
        timing: SettleTiming,
    ) -> (r: Result<(Rect, u64), Error>)
        ensures
            !old(self).knows(win) ==> r == Err::<(Rect, u64), Error>(Error::WindowGone) && final(self)@ == old(self)@,
            old(self).knows(win) ==> {
                let before = old(self)@[win.id as int];
                let answer = next_response(before.apply, *target);
                &&& r == Ok::<(Rect, u64), Error>((answer.rect, answer.settle_ms))
                &&& final(self)@ == old(self)@.update(
                    win.id as int,
                    before.applied(op_label@, *target, pos_first),
                )
            },
    {
        let r = match self.index_of(win) {
            Some(i) => {
                self.windows[i].push_ops(FakeOp::Apply { label: op_label.to_owned(), pos_first });
                let answer = FakeWindow::pop_response(&mut self.windows[i].apply, target);
                if answer.persist {
                    self.windows[i].rect = answer.rect;
                }
                Ok((answer.rect, answer.settle_ms))
            },
            None => Err(Error::WindowGone),
        };
        self.log = Ghost(
            self.log@.push(
                AxEvent::Placed {
                    call: PlaceCall::Apply {
                        label: op_label@,
                        win,
                        target: *target,
                        pos_first,
                        eps,
                        timing,
                    },
                    reply: r,
                },
            ),
        );
        proof {
            if old(self).knows(win) {
                assert(self@ =~= old(self)@.update(
                    win.id as int,
                    old(self)@[win.id as int].applied(op_label@, *target, pos_first),
                ));
            } else {
                assert(self@ =~= old(self)@);
            }
            if old(self).true_to_script() {
                one_more_answer(old(self).origin@, old(self).log@, self.log@.last());
            }
        }
        r
    }

    fn apply_size_only_and_wait(
        &mut self,
        op_label: &str,
        win: AxElem,
        width: i64,
        height: i64,
        eps: i64,
        timing: SettleTiming,
    ) -> (r: Result<(Rect, u64), Error>)
        ensures
            !old(self).knows(win) ==> r == Err::<(Rect, u64), Error>(Error::WindowGone) && final(self)@ == old(self)@,
            old(self).knows(win) ==> {
                let before = old(self)@[win.id as int];
                let answer = next_response(before.size_only, before.resized_target(width, height));
                &&& r == Ok::<(Rect, u64), Error>((answer.rect, answer.settle_ms))
                &&& final(self)@ == old(self)@.update(
                    win.id as int,
                    before.resized(op_label@, width, height),
                )
            },
    {
        let r = match self.index_of(win) {
            Some(i) => {
                self.windows[i].push_ops(FakeOp::SizeOnly { label: op_label.to_owned() });
                let cur = self.windows[i].rect;
                let wanted = Rect { x: cur.x, y: cur.y, w: width, h: height };
                let answer = FakeWindow::pop_response(&mut self.windows[i].size_only, &wanted);
                if answer.persist {
                    self.windows[i].rect = Rect {
                        x: cur.x,
                        y: cur.y,
                        w: answer.rect.w,
                        h: answer.rect.h,
                    };
                }
                Ok((answer.rect, answer.settle_ms))
            },
            None => Err(Error::WindowGone),
        };
        self.log = Ghost(
            self.log@.push(
                AxEvent::Placed {
                    call: PlaceCall::SizeOnly {
                        label: op_label@,
                        win,
                        width,
                        height,
                        eps,
                        timing,
                    },
                    reply: r,
                },
            ),
        );
        proof {
            if old(self).knows(win) {
                assert(self@ =~= old(self)@.update(
                    win.id as int,
                    old(self)@[win.id as int].resized(op_label@, width, height),
                ));
            } else {
                assert(self@ =~= old(self)@);
            }
            if old(self).true_to_script() {
                one_more_answer(old(self).origin@, old(self).log@, self.log@.last());
            }
        }
        r
    }

    fn nudge_axis_pos_and_wait(
        &mut self,
        op_label: &str,
        win: AxElem,
        target: &Rect,
        axis: Axis,
        eps: i64,
        timing: SettleTiming,
    ) -> (r: Result<(Rect, u64), Error>)
        ensures
            !old(self).knows(win) ==> r == Err::<(Rect, u64), Error>(Error::WindowGone) && final(self)@ == old(self)@,
            old(self).knows(win) ==> {
                let before = old(self)@[win.id as int];
                let answer = next_response(before.nudge, *target);
                &&& r == Ok::<(Rect, u64), Error>((answer.rect, answer.settle_ms))
                &&& final(self)@ == old(self)@.update(
                    win.id as int,
                    before.nudged(op_label@, *target, axis),
                )
            },
    {
        let r = match self.index_of(win) {
            Some(i) => {
                self.windows[i].push_ops(FakeOp::Nudge { label: op_label.to_owned(), axis });
                let answer = FakeWindow::pop_response(&mut self.windows[i].nudge, target);
                if answer.persist {
                    self.windows[i].rect = answer.rect;
                }
                Ok((answer.rect, answer.settle_ms))
            },
            None => Err(Error::WindowGone),
        };
        self.log = Ghost(
            self.log@.push(
                AxEvent::Placed {
                    call: PlaceCall::Nudge {
                        label: op_label@,
                        win,
                        target: *target,
                        axis,
                        eps,
                        timing,
                    },
                    reply: r,
                },
            ),
        );
        proof {
            if old(self).knows(win) {
                assert(self@ =~= old(self)@.update(
                    win.id as int,
                    old(self)@[win.id as int].nudged(op_label@, *target, axis),
                ));
            } else {
                assert(self@ =~= old(self)@);
            }
            if old(self).true_to_script() {
                one_more_answer(old(self).origin@, old(self).log@, self.log@.last());
            }
        }
        r
    }

    fn fallback_shrink_move_grow(
        &mut self,
        op_label: &str,
        win: AxElem,
        target: &Rect,
        eps: i64,
        timing: SettleTiming,
    ) -> (r: Result<(Rect, u64), Error>)
        ensures
            !old(self).knows(win) ==> r == Err::<(Rect, u64), Error>(Error::WindowGone) && final(self)@ == old(self)@,
            old(self).knows(win) ==> {
                let before = old(self)@[win.id as int];
                let answer = next_response(before.fallback, *target);
                &&& r == Ok::<(Rect, u64), Error>((answer.rect, answer.settle_ms))
                &&& final(self)@ == old(self)@.update(
                    win.id as int,
                    before.regrown(op_label@, *target),
                )
            },
    {
        let r = match self.index_of(win) {
            Some(i) => {
                self.windows[i].push_ops(FakeOp::Fallback { label: op_label.to_owned() });
                let answer = FakeWindow::pop_response(&mut self.windows[i].fallback, target);
                if answer.persist {
                    self.windows[i].rect = answer.rect;
                }
                Ok((answer.rect, answer.settle_ms))
            },
            None => Err(Error::WindowGone),
        };
        self.log = Ghost(
            self.log@.push(
                AxEvent::Placed {
                    call: PlaceCall::Fallback {
                        label: op_label@,
                        win,
                        target: *target,
                        eps,
                        timing,
                    },
                    reply: r,
                },
            ),
        );
        proof {
            if old(self).knows(win) {
                assert(self@ =~= old(self)@.update(
                    win.id as int,
                    old(self)@[win.id as int].regrown(op_label@, *target),
                ));
            } else {
                assert(self@ =~= old(self)@);
            }
            if old(self).true_to_script() {
                one_more_answer(old(self).origin@, old(self).log@, self.log@.last());
            }
        }
        r
    }

    fn preflight_safe_park(
        &mut self,
        op_label: &str,
        win: AxElem,
        visible_frame: &Rect,
        target: &Rect,
        eps: i64,
        timing: SettleTiming,
    ) -> (r: Result<(), Error>)
        ensures
            !old(self).knows(win) ==> r == Err::<(), Error>(Error::WindowGone) && final(self)@
                == old(self)@,
            old(self).knows(win) ==> {
                let before = old(self)@[win.id as int];
                &&& r == before.park_answer()
                &&& final(self)@ == old(self)@.update(
                    win.id as int,
                    before.parked(op_label@, *target),
                )
            },
    {
        let r = match self.index_of(win) {
            Some(i) => {
                self.windows[i].push_ops(FakeOp::Preflight { label: op_label.to_owned() });
                let answer = match self.windows[i].preflight.pop_front() {
                    Some(outcome) => outcome,
                    None => Ok(()),
                };
                if answer.is_ok() {
                    self.windows[i].rect = *target;
                }
                answer
            },
            None => Err(Error::WindowGone),
        };
        self.log = Ghost(
            self.log@.push(
                AxEvent::Parked {
                    label: op_label@,
                    win,
                    visible_frame: *visible_frame,
                    target: *target,
                    eps,
                    timing,
                    outcome: r,
                },
            ),
        );
        proof {
            if old(self).knows(win) {
                let before = old(self)@[win.id as int];
                assert(self.windows@[win.id as int]@.preflight =~= rest(before.preflight));
                assert(self@ =~= old(self)@.update(
                    win.id as int,
                    before.parked(op_label@, *target),
                ));
            } else {
                assert(self@ =~= old(self)@);
            }
            if old(self).true_to_script() {
                one_more_answer(old(self).origin@, old(self).log@, self.log@.last());
            }
        }
        r
    }
}

} // verus!
