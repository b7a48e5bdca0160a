//! Running a scenario: its windows are started, raised one after the other, and
//! ended.

use vstd::prelude::*;
use vstd::string::*;

use crate::pattern::{pattern_complaint, raise_pattern, title_pattern};
use crate::smoketest::error::{is_invalid, Error};
use crate::smoketest::scenario::{
    check_raise, has_label, label_at, unexpected_target, CursorState, FocusEvent, FocusPhase,
    FocusStep, ScenarioPlan, ScenarioWindow, WaitForFocus,
};
use crate::text::text_eq;

verus! {

/// How far a scenario has come.
#[derive(Debug, Clone, Copy, PartialEq, Eq, Structural)]
pub enum ScenarioStage {
    /// The windows are started and looked for.
    Setup,
    /// A window was asked to be raised.
    Requesting,
    /// The focus is awaited on that window.
    Focusing,
    /// What the helpers have to say is recorded.
    Recording,
    /// The helpers are ended.
    Ending,
    /// The case is over.
    Over,
}

/// What was learned in a scenario.
#[derive(Debug)]
pub enum ScenarioEvent {
    /// The windows were found.
    Spawned(Vec<ScenarioWindow>),
    /// The request to raise was answered, with the window that was taken or with a
    /// refusal. The cursor tells which events were lost before.
    Answered(Result<Option<(i32, u32)>, String>, CursorState),
    /// Something was learned about the focus, at a time.
    Focus(FocusEvent, u64, CursorState),
    /// The step is done.
    Done,
    /// The step has failed.
    Failed(Error),
}

/// What to do in a scenario.
#[derive(Debug)]
pub enum ScenarioAction {
    /// Start the windows of the plan, and look for them.
    Spawn,
    /// Ask for the window whose title matches a pattern to be raised.
    RequestRaise {
        /// Label of the window.
        label: &'static str,
        /// Pattern of its title.
        pattern: String,
    },
    /// Let helpers run and ask for the focus.
    AskFocus,
    /// Let the main thread run a little, and take the next event.
    PumpAndTake,
    /// Take the next event.
    TakeEvent,
    /// Record what the helpers have to say.
    RecordDiagnostics,
    /// End the helpers.
    Shutdown,
    /// The case is over.
    Finish(Result<(), Error>),
}

/// A run of a scenario.
#[derive(Debug)]
pub struct ScenarioRun {
    /// Name of the case.
    pub case: String,
    /// The windows, and the labels to raise.
    pub plan: ScenarioPlan,
    /// The windows that were found.
    pub found: Vec<ScenarioWindow>,
    /// Which label is raised.
    pub at: usize,
    /// The wait for the focus.
    pub wait: Option<WaitForFocus>,
    /// How far the scenario has come.
    pub stage: ScenarioStage,
}

/// Where the window with a label stands.
pub open spec fn position_of(windows: Seq<ScenarioWindow>, label: Seq<char>) -> int {
    choose|i: int| label_at(windows, label, i)
}

/// The window with a label.
pub open spec fn window_of(windows: Seq<ScenarioWindow>, label: Seq<char>) -> ScenarioWindow {
    windows[position_of(windows, label)]
}

/// Whether an action ends the case with a message.
pub open spec fn ends_with(action: ScenarioAction, why: Seq<char>) -> bool {
    action matches ScenarioAction::Finish(Err(e)) && is_invalid(e, why)
}

impl ScenarioRun {
    /// The label that is raised.
    pub open spec fn label(&self) -> Seq<char> {
        self.plan.raises@[self.at as int]@
    }

    /// The window that is raised.
    pub open spec fn target(&self) -> (i32, u32) {
        let w = window_of(self.found@, self.label());
        (w.pid, w.id)
    }

    /// Whether a label is being raised.
    pub open spec fn raises(&self) -> bool {
        self.stage is Requesting || self.stage is Focusing
    }

    /// Whether the run can be carried on.
    pub open spec fn valid(&self) -> bool {
        &&& self.at <= self.plan.raises@.len()
        &&& self.raises() ==> self.at < self.plan.raises@.len() && has_label(
            self.found@,
            self.label(),
        )
        &&& self.stage is Focusing ==> (self.wait matches Some(wait) && wait.expected
            == self.target())
    }

    /// Whether an event can come in a stage.
    pub open spec fn fits(&self, event: ScenarioEvent) -> bool {
        event is Failed && !(self.stage is Over) || match self.stage {
            ScenarioStage::Setup => event is Spawned,
            ScenarioStage::Requesting => event is Answered,
            ScenarioStage::Focusing => event is Focus,
            ScenarioStage::Recording | ScenarioStage::Ending => event is Done,
            ScenarioStage::Over => false,
        }
    }

    /// Whether two runs are of the same plan.
    pub open spec fn same_plan(&self, other: &ScenarioRun) -> bool {
        self.case == other.case && self.plan == other.plan
    }

    /// Whether the run goes on with the label at a position, or with what comes after
    /// the last one. A label without a window, and a title that no pattern can be made
    /// of, end the case.
    pub open spec fn turned_to(&self, at: int, after: ScenarioRun, action: ScenarioAction) -> bool {
        if at >= self.plan.raises@.len() {
            after.stage is Recording && after.at == at && after.found == self.found
                && action is RecordDiagnostics
        } else {
            let label = self.plan.raises@[at]@;
            if !has_label(self.found@, label) {
                after.stage is Over && ends_with(action, "unknown window label: "@ + label)
            } else {
                let title = window_of(self.found@, label).title@;
                match pattern_complaint(title_pattern(title)) {
                    Some(why) => after.stage is Over && ends_with(
                        action,
                        "invalid raise regex: "@ + why,
                    ),
                    None => {
                        &&& after.stage is Requesting
                        &&& after.at == at
                        &&& after.found == self.found
                        &&& action matches ScenarioAction::RequestRaise { label: named, pattern }
                        &&& named == self.plan.raises@[at]
                        &&& pattern@ == title_pattern(title)
                    },
                }
            }
        }
    }

    /// Whether an answer to the request to raise is taken as it has to be: the window
    /// that was meant leads to the wait for the focus, anything else ends the case.
    pub open spec fn checked(
        &self,
        answer: Result<Option<(i32, u32)>, String>,
        cursor: CursorState,
        after: ScenarioRun,
        action: ScenarioAction,
    ) -> bool {
        match answer {
            Err(why) => after.stage is Over && ends_with(
                action,
                "raise request failed: "@ + why@,
            ),
            Ok(None) => after.stage is Over && ends_with(
                action,
                "raise did not select a target window (label="@ + self.label() + " title="@
                    + window_of(self.found@, self.label()).title@ + ")"@,
            ),
            Ok(Some(got)) => if got == self.target() {
                &&& after.stage is Focusing
                &&& after.at == self.at
                &&& after.found == self.found
                &&& after.wait == Some(
                    WaitForFocus {
                        case: self.case,
                        expected: self.target(),
                        baseline_lost: cursor.lost_count,
                        deadline: 0,
                        phase: FocusPhase::First,
                    },
                )
                &&& action is AskFocus
            } else {
                after.stage is Over && ends_with(
                    action,
                    unexpected_target("raise"@, self.target(), got),
                )
            },
        }
    }

    /// Whether a step of the wait for the focus is followed: the next label comes only
    /// once the window has the focus.
    pub open spec fn followed(
        &self,
        step: FocusStep,
        after: ScenarioRun,
        action: ScenarioAction,
    ) -> bool {
        match step {
            FocusStep::Finish(Ok(_)) => self.turned_to(self.at + 1, after, action),
            FocusStep::Finish(Err(e)) => after.stage is Over && action == ScenarioAction::Finish(
                Err(e),
            ),
            _ => {
                &&& after.stage is Focusing
                &&& after.at == self.at
                &&& after.found == self.found
                &&& match step {
                    FocusStep::AskFocus => action is AskFocus,
                    FocusStep::PumpAndTake => action is PumpAndTake,
                    _ => action is TakeEvent,
                }
            },
        }
    }

    /// Whether an event is answered as it has to be.
    pub open spec fn answered(
        &self,
        event: ScenarioEvent,
        after: ScenarioRun,
        action: ScenarioAction,
    ) -> bool {
        match event {
            ScenarioEvent::Failed(e) => after.stage is Over && action == ScenarioAction::Finish(
                Err(e),
            ),
            ScenarioEvent::Spawned(windows) => ScenarioRun { found: windows, ..*self }.turned_to(
                0,
                after,
                action,
            ),
            ScenarioEvent::Answered(answer, cursor) => self.checked(answer, cursor, after, action),
            ScenarioEvent::Focus(news, now, cursor) => exists|step: FocusStep|
                self.wait->0.answers(news, now, cursor, step) && #[trigger] self.followed(
                    step,
                    after,
                    action,
                ),
            ScenarioEvent::Done => if self.stage is Recording {
                after.stage is Ending && after.at == self.at && action is Shutdown
            } else {
                after.stage is Over && action == ScenarioAction::Finish(Ok(()))
            },
        }
    }

    /// Begin a scenario.
    pub fn start(case: String, plan: ScenarioPlan) -> (r: (Self, ScenarioAction))
        ensures
            r.0.case == case,
            r.0.plan == plan,
            r.0.at == 0,
            r.0.stage is Setup,
            r.0.valid(),
            r.1 is Spawn,
    {
        (
            ScenarioRun {
                case,
                plan,
                found: Vec::new(),
                at: 0,
                wait: None,
                stage: ScenarioStage::Setup,
            },
            ScenarioAction::Spawn,
        )
    }

    fn find(&self, label: &str) -> (r: Option<usize>)
        ensures
            match r {
                Some(i) => has_label(self.found@, label@) && i < self.found@.len() && i
                    == position_of(self.found@, label@),
                None => !has_label(self.found@, label@),
            },
    {
        let mut i: usize = 0;
        while i < self.found.len()
            invariant
                i <= self.found@.len(),
                forall|j: int| 0 <= j < i ==> (#[trigger] self.found@[j]).label@ != label@,
            decreases self.found@.len() - i,
        {
            if text_eq(self.found[i].label, label) {
                proof {
                    let p = position_of(self.found@, label@);
                    assert(label_at(self.found@, label@, i as int));
                    assert(label_at(self.found@, label@, p));
                    if p < i {
                        assert(self.found@[p].label@ != label@);
                    } else if i < p {
                        assert(self.found@[i as int].label@ != label@);
                    }
                }
                return Some(i);
            }
            i = i + 1;
        }
        None
    }

    fn end(&mut self, result: Result<(), Error>) -> (r: ScenarioAction)
        requires
            old(self).at <= old(self).plan.raises@.len(),
        ensures
            final(self).valid(),
            final(self).same_plan(old(self)),
            final(self).stage is Over,
            r == ScenarioAction::Finish(result),
    {
        self.stage = ScenarioStage::Over;
        ScenarioAction::Finish(result)
    }

    fn turn_to(&mut self, at: usize) -> (r: ScenarioAction)
        requires
            at <= old(self).plan.raises@.len(),
        ensures
            final(self).valid(),
            final(self).same_plan(old(self)),
            old(self).turned_to(at as int, *final(self), r),
    {
        self.at = at;
        self.wait = None;
        if at >= self.plan.raises.len() {
            self.stage = ScenarioStage::Recording;
            return ScenarioAction::RecordDiagnostics;
        }
        let label = self.plan.raises[at];
        match self.find(label) {
            None => {
                let mut s = "unknown window label: ".to_owned();
                s.append(label);
                self.end(Err(Error::InvalidState(s)))
            },
            Some(i) => match raise_pattern(self.found[i].title.as_str()) {
                Ok(pattern) => {
                    self.stage = ScenarioStage::Requesting;
                    ScenarioAction::RequestRaise { label, pattern }
                },
                Err(e) => self.end(Err(e)),
            },
        }
    }

    fn check(&mut self, answer: Result<Option<(i32, u32)>, String>, cursor: CursorState) -> (r:
        ScenarioAction)
        requires
            old(self).valid(),
            old(self).stage is Requesting,
        ensures
            final(self).valid(),
            final(self).same_plan(old(self)),
            old(self).checked(answer, cursor, *final(self), r),
    {
        let label = self.plan.raises[self.at];
        let place: usize = match self.find(label) {
            Some(i) => i,
            None => {
                return self.end(Ok(()));
            },
        };
        let expected = (self.found[place].pid, self.found[place].id);
        match check_raise(label, self.found[place].title.as_str(), expected, answer) {
            Ok(()) => {
                let (wait, _) = WaitForFocus::wait_for_focus(self.case.clone(), expected, cursor);
                self.wait = Some(wait);
                self.stage = ScenarioStage::Focusing;
                ScenarioAction::AskFocus
            },
            Err(e) => self.end(Err(e)),
        }
    }

    fn follow(&mut self, news: FocusEvent, now: u64, cursor: CursorState) -> (r: ScenarioAction)
        requires
            old(self).valid(),
            old(self).stage is Focusing,
        ensures
            final(self).valid(),
            final(self).same_plan(old(self)),
            old(self).answered(ScenarioEvent::Focus(news, now, cursor), *final(self), r),
    {
        let ghost before = *self;
        let count: usize = self.plan.raises.len();
        assert(self.at < count);
        let held = self.wait.take();
        assert(held == before.wait);
        match held {
            Some(wait) => {
                let mut wait = wait;
                let step = wait.next(news, now, cursor);
                let ghost taken = step;
                let action = match step {
                    FocusStep::Finish(Ok(())) => {
                        let at: usize = self.at + 1;
                        self.turn_to(at)
                    },
                    FocusStep::Finish(Err(e)) => self.end(Err(e)),
                    FocusStep::AskFocus => {
                        self.wait = Some(wait);
                        ScenarioAction::AskFocus
                    },
                    FocusStep::PumpAndTake => {
                        self.wait = Some(wait);
                        ScenarioAction::PumpAndTake
                    },
                    FocusStep::TakeEvent => {
                        self.wait = Some(wait);
                        ScenarioAction::TakeEvent
                    },
                };
                assert(before.wait->0.answers(news, now, cursor, taken));
                assert(before.followed(taken, *self, action));
                action
            },
            None => self.end(Ok(())),
        }
    }

    /// Take in what was learned, and say what to do next.
    pub fn next(&mut self, event: ScenarioEvent) -> (r: ScenarioAction)
        requires
            old(self).valid(),
            old(self).fits(event),
        ensures
            final(self).valid(),
            final(self).same_plan(old(self)),
            old(self).answered(event, *final(self), r),
    {
        match event {
            ScenarioEvent::Failed(e) => self.end(Err(e)),
            ScenarioEvent::Spawned(windows) => {
                self.found = windows;
                self.turn_to(0)
            },
            ScenarioEvent::Answered(answer, cursor) => self.check(answer, cursor),
            ScenarioEvent::Focus(news, now, cursor) => self.follow(news, now, cursor),
            ScenarioEvent::Done => {
                if matches!(self.stage, ScenarioStage::Recording) {
                    self.stage = ScenarioStage::Ending;
                    ScenarioAction::Shutdown
                } else {
                    self.end(Ok(()))
                }
            },
        }
    }
}

/// A label is raised only when it is the first one and the windows have just been
/// found, or when the window of the label before it was just seen with the focus.
pub proof fn labels_follow_the_focus(
    before: ScenarioRun,
    event: ScenarioEvent,
    after: ScenarioRun,
    action: ScenarioAction,
)
    requires
        before.valid(),
        before.fits(event),
        before.answered(event, after, action),
        action is RequestRaise || action is RecordDiagnostics,
    ensures
        before.stage is Setup && after.at == 0 || {
            &&& before.stage is Focusing
            &&& after.at == before.at + 1
            &&& event matches ScenarioEvent::Focus(news, _, _)
            &&& shows_focus(news, before.target())
        },
        action matches ScenarioAction::RequestRaise { label, .. } ==> after.at
            < before.plan.raises@.len() && label == before.plan.raises@[after.at as int],
        action is RecordDiagnostics ==> after.at == before.plan.raises@.len(),
{
}

/// Whether news show the focus on a window.
pub open spec fn shows_focus(news: FocusEvent, target: (i32, u32)) -> bool {
    ||| news == FocusEvent::Focused(Some(target))
    ||| news == FocusEvent::Changed(Some(target))
}

/// The case ends well only after what the helpers had to say was recorded and they
/// were ended, and every failure ends it at once, with that failure.
pub proof fn failures_end_the_scenario(
    before: ScenarioRun,
    event: ScenarioEvent,
    after: ScenarioRun,
    action: ScenarioAction,
)
    requires
        before.valid(),
        before.fits(event),
        before.answered(event, after, action),
    ensures
        action == ScenarioAction::Finish(Ok(())) ==> before.stage is Ending && event is Done,
        action is Shutdown ==> before.stage is Recording && event is Done,
        event matches ScenarioEvent::Failed(e) ==> action == ScenarioAction::Finish(Err(e)),
        action is Finish <==> after.stage is Over,
{
}

/// A scenario from its start: each event is answered by the run and the action that
/// come after it.
pub open spec fn scenario_went(
    runs: Seq<ScenarioRun>,
    events: Seq<ScenarioEvent>,
    actions: Seq<ScenarioAction>,
) -> bool {
    &&& runs.len() == events.len() + 1
    &&& actions.len() == events.len()
    &&& runs[0].stage is Setup
    &&& runs[0].valid()
    &&& forall|i: int|
        0 <= i < events.len() ==> #[trigger] runs[i].fits(events[i]) && runs[i + 1].valid()
            && runs[i + 1].same_plan(&runs[i]) && runs[i].answered(
            events[i],
            runs[i + 1],
            actions[i],
        )
}

/// The labels that were asked to be raised.
pub open spec fn raised_labels(actions: Seq<ScenarioAction>) -> Seq<&'static str>
    decreases actions.len(),
{
    if actions.len() == 0 {
        Seq::empty()
    } else {
        let before = raised_labels(actions.drop_last());
        match actions.last() {
            ScenarioAction::RequestRaise { label, .. } => before.push(label),
            _ => before,
        }
    }
}

/// How many labels have been raised when a run has come to its stage.
pub open spec fn raised_so_far(run: ScenarioRun) -> int {
    match run.stage {
        ScenarioStage::Setup => 0,
        ScenarioStage::Requesting | ScenarioStage::Focusing => run.at + 1,
        _ => run.at as int,
    }
}

/// The windows are raised in the order of the plan, none twice and none left out: at
/// any time those raised are the first ones of the plan, and when the case ends well
/// they are all of them.
pub proof fn labels_are_raised_in_order(
    runs: Seq<ScenarioRun>,
    events: Seq<ScenarioEvent>,
    actions: Seq<ScenarioAction>,
)
    requires
        scenario_went(runs, events, actions),
    ensures
        ({
            let plan = runs[0].plan.raises@;
            let raised = raised_labels(actions);
            &&& raised.len() <= plan.len()
            &&& raised == plan.take(raised.len() as int)
            &&& !(runs.last().stage is Over) ==> raised.len() == raised_so_far(runs.last())
            &&& runs.last().stage is Recording || runs.last().stage is Ending ==> raised == plan
            &&& actions.len() > 0 && actions.last() == ScenarioAction::Finish(Ok(()))
                ==> raised == plan
        }),
        runs.last().plan == runs[0].plan,
        runs.last().valid(),
    decreases events.len(),
{
    let plan = runs[0].plan.raises@;
    let raised = raised_labels(actions);
    if events.len() == 0 {
        assert(plan.take(0) =~= Seq::empty());
    } else {
        let n = events.len() - 1;
        let earlier = runs.drop_last();
        let before = earlier.last();
        let after = runs.last();
        assert(runs[n].fits(events[n]));
        assert(scenario_went(earlier, events.drop_last(), actions.drop_last())) by {
            assert forall|i: int| 0 <= i < n implies #[trigger] earlier[i].fits(
                events.drop_last()[i],
            ) && earlier[i + 1].valid() && earlier[i + 1].same_plan(&earlier[i])
                && earlier[i].answered(events.drop_last()[i], earlier[i + 1], actions.drop_last()[i]) by {
                assert(runs[i].fits(events[i]));
            }
        }
        labels_are_raised_in_order(earlier, events.drop_last(), actions.drop_last());
        let done = raised_labels(actions.drop_last());
        if actions.last() is RequestRaise {
            labels_follow_the_focus(before, events[n], after, actions[n]);
            assert(plan.take(done.len() as int + 1) =~= plan.take(done.len() as int).push(
                plan[done.len() as int],
            ));
        }
        if after.stage is Recording || after.stage is Ending {
            assert(plan.take(plan.len() as int) =~= plan);
        }
    }
}

} // verus!
