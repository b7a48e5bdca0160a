//! A placement from beginning to end: the window is found, brought into a state in
//! which it can be placed, placed, and raised where that is called for.

use vstd::prelude::*;

use crate::error::Error;
use crate::geom::{Point, Size};
use crate::place::adapter::AxElem;
use crate::place::normalize::{
    ax_window_for_id_with_retry, normalize_result, normalized, skip_reason,
    skip_reason_for_role_subrole, LookupStep, NormalizeAction, NormalizePhase, Normalizer,
    WindowFlag, AX_WINDOW_RETRIES, AX_WINDOW_RETRY_DELAY_MS,
};
use crate::place::ops::{ax_check, raises_after_move, WindowState};

verus! {

/// What is placed.
#[derive(Debug, Clone, Copy, PartialEq, Eq, Structural)]
pub enum PlaceKind {
    /// The focused window of an application goes into a cell.
    Focused,
    /// A window goes into a cell.
    ById,
    /// A window goes to the neighbouring cell.
    Move,
}

/// How far a placement has come: the action that it has asked for last.
#[derive(Debug, Clone, Copy, PartialEq, Eq, Structural)]
pub enum PlaceStage {
    /// Whether windows can be placed at all is looked up.
    Checking,
    /// The window is searched for, after some repetitions.
    Finding(usize),
    /// A pause before the window is searched for again.
    Waiting(usize),
    /// The window is brought into a state in which it can be placed.
    Normalizing,
    /// What kind of window it is, is read.
    Describing,
    /// Where the window is, is read.
    Measuring,
    /// The window is placed.
    Placing,
    /// The window is raised, because it did not get into its place.
    RaisingAfter,
    /// Nothing is left to do.
    Over,
}

/// What was learned during a placement.
#[derive(Debug)]
pub enum PlaceEvent {
    /// Whether the process is trusted, and whether this is the main thread.
    Access(bool, bool),
    /// The window, or why there is none.
    Found(Result<AxElem, Error>),
    /// The pause is over.
    Rested,
    /// The step towards normality is done; the flag that was read, if one was.
    Stepped(Option<bool>),
    /// Role and subrole of the window.
    Kind(String, String),
    /// Position and size of the window, or why they cannot be read.
    Measured(Result<(Point, Size), Error>),
    /// How the placement itself ended.
    Placed(Result<(), Error>),
    /// Raising was tried.
    Raised,
}

/// What to do during a placement.
#[derive(Debug)]
pub enum PlaceAction {
    /// Look up whether windows can be placed at all.
    CheckAccess,
    /// Search for the window.
    FindWindow,
    /// Pause for milliseconds.
    Pause(u64),
    /// Take a step towards normality.
    Normalize(NormalizeAction),
    /// Read role and subrole.
    ReadKind,
    /// Read position and size.
    ReadFrame,
    /// Place the window as it was read.
    Place(WindowState),
    /// Raise the window.
    RaiseWindow,
    /// The placement is over.
    Finish(Result<(), Error>),
}

/// A placement.
#[derive(Debug)]
pub struct PlaceRun {
    /// What is placed.
    pub kind: PlaceKind,
    /// The window.
    pub win: AxElem,
    /// Its way to normality.
    pub normalizer: Normalizer,
    /// Its role.
    pub role: String,
    /// Its subrole.
    pub subrole: String,
    /// Why it did not get into its place.
    pub failure: Option<Error>,
    /// How far the placement has come.
    pub stage: PlaceStage,
}

/// Whether an action changes a window.
pub open spec fn writes(action: PlaceAction) -> bool {
    ||| action is Place
    ||| action matches PlaceAction::Normalize(step) && step is Clear
}

/// Whether an action raises a window.
pub open spec fn raises(action: PlaceAction) -> bool {
    ||| action is RaiseWindow
    ||| action matches PlaceAction::Normalize(step) && (step is PerformRaise || step is RaiseWindow)
}

impl PlaceRun {
    /// Whether an event can come in a stage.
    pub open spec fn fits(&self, event: PlaceEvent) -> bool {
        match self.stage {
            PlaceStage::Checking => event is Access,
            PlaceStage::Finding(_) => event is Found,
            PlaceStage::Waiting(_) => event is Rested,
            PlaceStage::Normalizing => event is Stepped,
            PlaceStage::Describing => event is Kind,
            PlaceStage::Measuring => event is Measured,
            PlaceStage::Placing => event is Placed,
            PlaceStage::RaisingAfter => event is Raised,
            PlaceStage::Over => false,
        }
    }

    /// Whether the run can be carried on.
    pub open spec fn valid(&self) -> bool {
        self.stage is RaisingAfter ==> self.failure is Some
    }

    /// Whether the search is repeated for a window that has not surfaced yet.
    pub open spec fn searches_again(&self, attempts: usize, error: Error) -> bool {
        self.kind is Move && error is FocusedWindow && attempts < AX_WINDOW_RETRIES
    }

    /// Whether the placement has ended with a result.
    pub open spec fn ended(
        &self,
        result: Result<(), Error>,
        after: PlaceRun,
        action: PlaceAction,
    ) -> bool {
        after.stage is Over && after.kind == self.kind && action == PlaceAction::Finish(result)
    }

    /// Whether an event is answered as it has to be.
    pub open spec fn answered(
        &self,
        event: PlaceEvent,
        after: PlaceRun,
        action: PlaceAction,
    ) -> bool {
        match (self.stage, event) {
            (PlaceStage::Checking, PlaceEvent::Access(trusted, on_main_thread)) => if !trusted {
                self.ended(Err(Error::Permission), after, action)
            } else if !on_main_thread {
                self.ended(Err(Error::MainThread), after, action)
            } else {
                after == (PlaceRun { stage: PlaceStage::Finding(0), ..*self })
                    && action is FindWindow
            },
            (PlaceStage::Finding(attempts), PlaceEvent::Found(found)) => match found {
                Ok(win) => {
                    &&& after == (PlaceRun {
                        win,
                        normalizer: Normalizer {
                            by_id: !(self.kind is Focused),
                            phase: NormalizePhase::FullScreen,
                            changed: false,
                        },
                        stage: PlaceStage::Normalizing,
                        ..*self
                    })
                    &&& action == PlaceAction::Normalize(
                        NormalizeAction::Read(WindowFlag::FullScreen),
                    )
                },
                Err(e) => if self.searches_again(attempts, e) {
                    after == (PlaceRun {
                        stage: PlaceStage::Waiting((attempts + 1) as usize),
                        ..*self
                    }) && action == PlaceAction::Pause(AX_WINDOW_RETRY_DELAY_MS)
                } else {
                    self.ended(Err(e), after, action)
                },
            },
            (PlaceStage::Waiting(attempts), _) => after == (PlaceRun {
                stage: PlaceStage::Finding(attempts),
                ..*self
            }) && action is FindWindow,
            (PlaceStage::Normalizing, PlaceEvent::Stepped(flag)) => {
                let (next, step) = normalized(self.normalizer, flag);
                match step {
                    NormalizeAction::GiveUp => self.ended(
                        Err(Error::FullscreenActive),
                        after,
                        action,
                    ),
                    NormalizeAction::Ready => after == (PlaceRun {
                        normalizer: next,
                        stage: PlaceStage::Describing,
                        ..*self
                    }) && action is ReadKind,
                    _ => after == (PlaceRun { normalizer: next, ..*self }) && action
                        == PlaceAction::Normalize(step),
                }
            },
            (PlaceStage::Describing, PlaceEvent::Kind(role, subrole)) => if skip_reason(
                role@,
                subrole@,
            ) is Some {
                self.ended(Ok(()), after, action)
            } else {
                after == (PlaceRun { role, subrole, stage: PlaceStage::Measuring, ..*self })
                    && action is ReadFrame
            },
            (PlaceStage::Measuring, PlaceEvent::Measured(measured)) => match measured {
                Ok((pos, size)) => {
                    &&& after.stage is Placing
                    &&& after.kind == self.kind
                    &&& action == PlaceAction::Place(
                        WindowState {
                            win: self.win,
                            role: self.role,
                            subrole: self.subrole,
                            pos,
                            size,
                        },
                    )
                },
                Err(e) => self.ended(Err(e), after, action),
            },
            (PlaceStage::Placing, PlaceEvent::Placed(result)) => match result {
                Err(e) => if self.kind is Move && e is PlacementVerificationFailed {
                    after.stage is RaisingAfter && after.kind == self.kind && after.failure
                        == Some(e) && action is RaiseWindow
                } else {
                    self.ended(Err(e), after, action)
                },
                Ok(_) => self.ended(Ok(()), after, action),
            },
            (PlaceStage::RaisingAfter, _) => self.failure matches Some(e) && self.ended(
                Err(e),
                after,
                action,
            ),
            _ => false,
        }
    }

    /// Begin a placement.
    pub fn start(kind: PlaceKind) -> (r: (Self, PlaceAction))
        ensures
            r.0.kind == kind,
            r.0.stage is Checking,
            r.0.valid(),
            r.1 is CheckAccess,
    {
        let (normalizer, _) = Normalizer::normalize_before_move(false);
        (
            PlaceRun {
                kind,
                win: AxElem { id: 0 },
                normalizer,
                role: String::new(),
                subrole: String::new(),
                failure: None,
                stage: PlaceStage::Checking,
            },
            PlaceAction::CheckAccess,
        )
    }

    fn end(&mut self, result: Result<(), Error>) -> (r: PlaceAction)
        ensures
            final(self).valid(),
            old(self).ended(result, *final(self), r),
    {
        self.stage = PlaceStage::Over;
        PlaceAction::Finish(result)
    }

    fn on_found(&mut self, attempts: usize, found: Result<AxElem, Error>) -> (r: PlaceAction)
        requires
            old(self).valid(),
            old(self).stage == PlaceStage::Finding(attempts),
        ensures
            final(self).valid(),
            old(self).answered(PlaceEvent::Found(found), *final(self), r),
    {
        let lookup = if matches!(self.kind, PlaceKind::Move) {
            ax_window_for_id_with_retry(attempts, found)
        } else {
            LookupStep::Finished(found)
        };
        match lookup {
            LookupStep::Finished(Ok(win)) => {
                let (normalizer, step) = Normalizer::normalize_before_move(
                    !matches!(self.kind, PlaceKind::Focused),
                );
                self.win = win;
                self.normalizer = normalizer;
                self.stage = PlaceStage::Normalizing;
                PlaceAction::Normalize(step)
            },
            LookupStep::Finished(Err(e)) => self.end(Err(e)),
            LookupStep::Retry { attempts, delay_ms } => {
                self.stage = PlaceStage::Waiting(attempts);
                PlaceAction::Pause(delay_ms)
            },
        }
    }

    fn on_stepped(&mut self, flag: Option<bool>) -> (r: PlaceAction)
        requires
            old(self).valid(),
            old(self).stage is Normalizing,
        ensures
            final(self).valid(),
            old(self).answered(PlaceEvent::Stepped(flag), *final(self), r),
    {
        let step = self.normalizer.next(flag);
        match step {
            NormalizeAction::GiveUp => self.end(normalize_result(step)),
            NormalizeAction::Ready => {
                self.stage = PlaceStage::Describing;
                PlaceAction::ReadKind
            },
            _ => PlaceAction::Normalize(step),
        }
    }

    fn on_placed(&mut self, result: Result<(), Error>) -> (r: PlaceAction)
        requires
            old(self).valid(),
            old(self).stage is Placing,
        ensures
            final(self).valid(),
            old(self).answered(PlaceEvent::Placed(result), *final(self), r),
    {
        let raise = matches!(self.kind, PlaceKind::Move) && raises_after_move(&result);
        match result {
            Ok(()) => self.end(Ok(())),
            Err(e) => {
                if raise {
                    self.failure = Some(e);
                    self.stage = PlaceStage::RaisingAfter;
                    PlaceAction::RaiseWindow
                } else {
                    self.end(Err(e))
                }
            },
        }
    }

    /// Take in what was learned, and say what to do next.
    pub fn next(&mut self, event: PlaceEvent) -> (r: PlaceAction)
        requires
            old(self).valid(),
            old(self).fits(event),
        ensures
            final(self).valid(),
            old(self).answered(event, *final(self), r),
    {
        match event {
            PlaceEvent::Access(trusted, on_main_thread) => match ax_check(trusted, on_main_thread) {
                Ok(()) => {
                    self.stage = PlaceStage::Finding(0);
                    PlaceAction::FindWindow
                },
                Err(e) => self.end(Err(e)),
            },
            PlaceEvent::Found(found) => {
                let attempts: usize = match self.stage {
                    PlaceStage::Finding(n) => n,
                    _ => 0,
                };
                self.on_found(attempts, found)
            },
            PlaceEvent::Rested => {
                let attempts: usize = match self.stage {
                    PlaceStage::Waiting(n) => n,
                    _ => 0,
                };
                self.stage = PlaceStage::Finding(attempts);
                PlaceAction::FindWindow
            },
            PlaceEvent::Stepped(flag) => self.on_stepped(flag),
            PlaceEvent::Kind(role, subrole) => {
                if skip_reason_for_role_subrole(role.as_str(), subrole.as_str()).is_some() {
                    return self.end(Ok(()));
                }
                self.role = role;
                self.subrole = subrole;
                self.stage = PlaceStage::Measuring;
                PlaceAction::ReadFrame
            },
            PlaceEvent::Measured(Ok((pos, size))) => {
                self.stage = PlaceStage::Placing;
                PlaceAction::Place(
                    WindowState {
                        win: self.win,
                        role: self.role.clone(),
                        subrole: self.subrole.clone(),
                        pos,
                        size,
                    },
                )
            },
            PlaceEvent::Measured(Err(e)) => self.end(Err(e)),
            PlaceEvent::Placed(result) => self.on_placed(result),
            PlaceEvent::Raised => match self.failure.take() {
                Some(e) => self.end(Err(e)),
                None => self.end(Ok(())),
            },
        }
    }
}

/// A placement from its start: each event is answered by the run and the action that
/// come after it.
pub open spec fn place_went(
    runs: Seq<PlaceRun>,
    events: Seq<PlaceEvent>,
    actions: Seq<PlaceAction>,
) -> bool {
    &&& runs.len() == events.len() + 1
    &&& actions.len() == events.len()
    &&& runs[0].stage is Checking
    &&& forall|i: int|
        0 <= i < events.len() ==> #[trigger] runs[i].fits(events[i]) && runs[i].answered(
            events[i],
            runs[i + 1],
            actions[i],
        )
}

/// Whether nothing has been learned of the window's state yet.
pub open spec fn untouched(run: PlaceRun) -> bool {
    ||| run.stage is Checking
    ||| run.stage is Finding
    ||| run.stage is Waiting
    ||| run.stage is Normalizing && run.normalizer.phase is FullScreen
}

proof fn harmless_at_first(
    runs: Seq<PlaceRun>,
    events: Seq<PlaceEvent>,
    actions: Seq<PlaceAction>,
    n: int,
)
    requires
        place_went(runs, events, actions),
        0 <= n <= events.len(),
        untouched(runs[n]),
    ensures
        forall|i: int| 0 <= i < n ==> !writes(#[trigger] actions[i]) && !raises(actions[i]),
    decreases n,
{
    if n > 0 {
        assert(runs[n - 1].fits(events[n - 1]));
        assert(runs[n - 1].answered(events[n - 1], runs[n], actions[n - 1]));
        assert(untouched(runs[n - 1]));
        harmless_at_first(runs, events, actions, n - 1);
    }
}

/// A window that reports full screen ends the placement with that error: nothing was
/// written and nothing was raised before, and nothing comes after.
pub proof fn full_screen_windows_are_left_alone(
    runs: Seq<PlaceRun>,
    events: Seq<PlaceEvent>,
    actions: Seq<PlaceAction>,
    n: int,
)
    requires
        place_went(runs, events, actions),
        0 <= n < events.len(),
        runs[n].stage is Normalizing,
        runs[n].normalizer.phase is FullScreen,
        events[n] == PlaceEvent::Stepped(Some(true)),
    ensures
        n == events.len() - 1,
        actions[n] == PlaceAction::Finish(Err(Error::FullscreenActive)),
        forall|i: int| 0 <= i < actions.len() ==> !writes(#[trigger] actions[i]) && !raises(actions[i]),
{
    harmless_at_first(runs, events, actions, n);
    assert(runs[n].fits(events[n]));
    assert(runs[n + 1].stage is Over);
    if n + 1 < events.len() {
        assert(runs[n + 1].fits(events[n + 1]));
    }
}

/// The steps of a placement come in order: each one leads to the next, back to the search
/// while the window has not surfaced, or to the end.
pub proof fn placement_steps_come_in_order(
    before: PlaceRun,
    event: PlaceEvent,
    after: PlaceRun,
    action: PlaceAction,
)
    requires
        before.fits(event),
        before.answered(event, after, action),
    ensures
        after.stage is Over <==> action is Finish,
        before.stage is Checking ==> after.stage is Finding || after.stage is Over,
        before.stage is Finding ==> after.stage is Waiting || after.stage is Normalizing
            || after.stage is Over,
        before.stage is Waiting ==> after.stage is Finding,
        before.stage is Normalizing ==> after.stage is Normalizing || after.stage is Describing
            || after.stage is Over,
        before.stage is Describing ==> after.stage is Measuring || after.stage is Over,
        before.stage is Measuring ==> after.stage is Placing || after.stage is Over,
        before.stage is Placing ==> after.stage is RaisingAfter || after.stage is Over,
        before.stage is RaisingAfter ==> after.stage is Over,
        action is Place ==> before.stage is Measuring,
        action is RaiseWindow ==> before.stage is Placing && before.kind is Move && (
        event matches PlaceEvent::Placed(Err(e)) && e is PlacementVerificationFailed),
{
}

} // verus!
