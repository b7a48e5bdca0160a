//! The hide case: a window is hidden and shown again.

use vstd::prelude::*;
use vstd::string::*;

use crate::smoketest::error::{is_invalid, Error};
use crate::smoketest::frames::{
    assert_frame_matches, mismatch_text, px_match, rect_matches, wait_failure, wait_failure_text,
    Frames, RectPx, WindowMode,
};
use crate::smoketest::scenario::{
    focus_window, unexpected_target, wrong_target, ScenarioPlan, WindowSpawnSpec,
};

verus! {

/// The window of the hide case.
pub fn hide_scenario() -> (r: ScenarioPlan)
    ensures
        r.slug@ == "hide.toggle"@,
        r.windows@ == seq![focus_window("primary", "hide-primary", (560, 360), (480, 260), "H")],
        r.raises@ == seq!["primary"],
{
    let windows = vec![
        WindowSpawnSpec::new("primary", "hide-primary").configure(
            25_000,
            Some((560, 360)),
            Some((480, 260)),
            "H",
        ),
    ];
    ScenarioPlan { slug: "hide.toggle", windows, raises: vec!["primary"] }
}

/// Whether a frame is the one to wait for after the window was shown again.
pub fn is_restored(frames: &Frames, expected: RectPx, eps: i32) -> (r: bool)
    ensures
        r == (frames.mode is Normal && px_match(frames.authoritative, expected, eps as int)),
{
    matches!(frames.mode, WindowMode::Normal) && rect_matches(frames.authoritative, expected, eps)
}

/// How far the hide case has come.
#[derive(Debug, Clone, Copy, PartialEq, Eq, Structural)]
pub enum HideStage {
    /// The first frames are read.
    Measuring,
    /// The window is raised.
    Raising,
    /// The window has to be in its normal state.
    Readying,
    /// Hiding is asked for.
    Hiding,
    /// The window has to be hidden.
    Vanishing,
    /// Showing is asked for.
    Showing,
    /// The window has to be back.
    Returning,
    /// The final frames are read.
    Checking,
    /// The helper is ended.
    Ending,
    /// The case is over.
    Over,
}

/// What was learned in the hide case.
#[derive(Debug)]
pub enum HideEvent {
    /// The step is done.
    Done,
    /// The step has failed.
    Broken(Error),
    /// The frames of the window.
    Seen(Frames),
    /// The window has no frames.
    Unseen,
    /// A wait ended without what was awaited.
    Overdue(String),
    /// The command was accepted, for a window or for none in particular.
    Accepted(Option<(i32, u32)>),
    /// The command was refused.
    Refused(String),
}

/// What to do in the hide case.
#[derive(Debug)]
pub enum HideAction {
    /// Read the frames of the window.
    ReadFrames,
    /// Raise the window.
    RaiseWindow,
    /// Wait until the frames show the window in a state.
    AwaitMode(WindowMode),
    /// Ask for the window to be hidden, or to be shown.
    RequestHide(bool),
    /// Wait until the window is back in place.
    AwaitRestored(RectPx, i32),
    /// End the helper.
    Shutdown,
    /// The case is over.
    Finish(Result<(), Error>),
}

/// A run of the hide case.
#[derive(Debug)]
pub struct HideRun {
    /// Name of the case.
    pub case: String,
    /// The window.
    pub target: (i32, u32),
    /// Tolerance in pixels.
    pub eps: i32,
    /// Where the window was at first.
    pub expected: RectPx,
    /// Whether the window was seen hidden.
    pub hidden_observed: bool,
    /// How far the case has come.
    pub stage: HideStage,
}

/// The message about a refused command.
pub open spec fn hide_refused(on: bool, why: Seq<char>) -> Seq<char> {
    (if on {
        "hide(on)"@
    } else {
        "hide(off)"@
    }) + " request failed: "@ + why
}

/// Whether an event shows the window in a state.
pub open spec fn shows_mode(event: HideEvent, mode: WindowMode) -> bool {
    event matches HideEvent::Seen(frames) && frames.mode == mode
}

/// Whether an event shows the window in its normal state at a place.
pub open spec fn shows_back(event: HideEvent, place: RectPx, eps: i32) -> bool {
    event matches HideEvent::Seen(frames) && frames.mode is Normal && px_match(
        frames.authoritative,
        place,
        eps as int,
    )
}

/// What becomes of an event in a stage.
pub enum HideVerdict {
    /// The case goes on in a stage.
    Go(HideStage),
    /// The case fails with a message.
    Fail(Seq<char>),
    /// The case fails with an error of its own.
    Abort,
}

/// The stage after a command was accepted, if it was for the window.
pub open spec fn command_verdict(
    on: bool,
    target: (i32, u32),
    got: Option<(i32, u32)>,
    next: HideStage,
) -> HideVerdict {
    match got {
        Some(other) => if other == target {
            HideVerdict::Go(next)
        } else {
            HideVerdict::Fail(
                unexpected_target(
                    if on {
                        "hide(on)"@
                    } else {
                        "hide(off)"@
                    },
                    target,
                    other,
                ),
            )
        },
        None => HideVerdict::Go(next),
    }
}

impl HideRun {
    /// What becomes of an event. A wait goes on until the frames show what is
    /// awaited, and a step until it is reported done.
    pub open spec fn verdict(&self, event: HideEvent) -> HideVerdict {
        match event {
            HideEvent::Broken(_) => HideVerdict::Abort,
            HideEvent::Overdue(why) => HideVerdict::Fail(wait_failure_text(self.case@, why@)),
            HideEvent::Refused(why) => HideVerdict::Fail(
                hide_refused(self.stage is Hiding, why@),
            ),
            _ => match self.stage {
                HideStage::Measuring => match event {
                    HideEvent::Seen(_) => HideVerdict::Go(HideStage::Raising),
                    _ => HideVerdict::Fail("hide: frames unavailable after spawn"@),
                },
                HideStage::Raising => if event is Done {
                    HideVerdict::Go(HideStage::Readying)
                } else {
                    HideVerdict::Go(HideStage::Raising)
                },
                HideStage::Readying => if shows_mode(event, WindowMode::Normal) {
                    HideVerdict::Go(HideStage::Hiding)
                } else {
                    HideVerdict::Go(HideStage::Readying)
                },
                HideStage::Hiding => match event {
                    HideEvent::Accepted(got) => command_verdict(
                        true,
                        self.target,
                        got,
                        HideStage::Vanishing,
                    ),
                    _ => HideVerdict::Go(HideStage::Hiding),
                },
                HideStage::Vanishing => if shows_mode(event, WindowMode::Hidden) {
                    HideVerdict::Go(HideStage::Showing)
                } else {
                    HideVerdict::Go(HideStage::Vanishing)
                },
                HideStage::Showing => match event {
                    HideEvent::Accepted(got) => command_verdict(
                        false,
                        self.target,
                        got,
                        HideStage::Returning,
                    ),
                    _ => HideVerdict::Go(HideStage::Showing),
                },
                HideStage::Returning => if !shows_back(event, self.expected, self.eps) {
                    HideVerdict::Go(HideStage::Returning)
                } else if self.hidden_observed {
                    HideVerdict::Go(HideStage::Checking)
                } else {
                    HideVerdict::Fail("hide case did not observe hidden window state"@)
                },
                HideStage::Checking => match event {
                    HideEvent::Seen(frames) => if !(frames.mode is Normal) {
                        HideVerdict::Fail(
                            "hide: expected Normal mode after restore, saw "@
                                + frames.mode.label(),
                        )
                    } else if px_match(frames.authoritative, self.expected, self.eps as int) {
                        HideVerdict::Go(HideStage::Ending)
                    } else {
                        HideVerdict::Fail(
                            mismatch_text(self.case@, self.expected, frames, self.eps),
                        )
                    },
                    _ => HideVerdict::Fail("hide: final frames unavailable"@),
                },
                HideStage::Ending => if event is Done {
                    HideVerdict::Go(HideStage::Over)
                } else {
                    HideVerdict::Go(HideStage::Ending)
                },
                HideStage::Over => HideVerdict::Go(HideStage::Over),
            },
        }
    }

    /// What a stage calls for.
    pub open spec fn action(&self) -> HideAction {
        match self.stage {
            HideStage::Measuring => HideAction::ReadFrames,
            HideStage::Raising => HideAction::RaiseWindow,
            HideStage::Readying => HideAction::AwaitMode(WindowMode::Normal),
            HideStage::Hiding => HideAction::RequestHide(true),
            HideStage::Vanishing => HideAction::AwaitMode(WindowMode::Hidden),
            HideStage::Showing => HideAction::RequestHide(false),
            HideStage::Returning => HideAction::AwaitRestored(self.expected, self.eps),
            HideStage::Checking => HideAction::ReadFrames,
            HideStage::Ending => HideAction::Shutdown,
            HideStage::Over => HideAction::Finish(Ok(())),
        }
    }

    /// A run for a window that was started.
    pub fn hide_toggle_roundtrip(case: String, target: (i32, u32), eps: i32) -> (r: (Self, HideAction))
        ensures
            r.0 == (HideRun {
                case,
                target,
                eps,
                expected: RectPx { x: 0, y: 0, w: 0, h: 0 },
                hidden_observed: false,
                stage: HideStage::Measuring,
            }),
            r.1 is ReadFrames,
    {
        (
            HideRun {
                case,
                target,
                eps,
                expected: RectPx { x: 0, y: 0, w: 0, h: 0 },
                hidden_observed: false,
                stage: HideStage::Measuring,
            },
            HideAction::ReadFrames,
        )
    }

    fn check_command(&self, on: bool, event: &HideEvent, here: HideStage, next: HideStage) -> (r:
        Result<HideStage, Error>)
        ensures
            match event {
                HideEvent::Accepted(got) => match command_verdict(on, self.target, *got, next) {
                    HideVerdict::Go(stage) => r == Ok::<HideStage, Error>(stage),
                    HideVerdict::Fail(why) => r matches Err(e) && is_invalid(e, why),
                    HideVerdict::Abort => false,
                },
                _ => r == Ok::<HideStage, Error>(here),
            },
    {
        match event {
            HideEvent::Accepted(Some(got)) => {
                if got.0 == self.target.0 && got.1 == self.target.1 {
                    Ok(next)
                } else if on {
                    Err(wrong_target("hide(on)", self.target, *got))
                } else {
                    Err(wrong_target("hide(off)", self.target, *got))
                }
            },
            HideEvent::Accepted(None) => Ok(next),
            _ => Ok(here),
        }
    }

    fn is_hidden(event: &HideEvent) -> (r: bool)
        ensures
            r == shows_mode(*event, WindowMode::Hidden),
    {
        match event {
            HideEvent::Seen(frames) => matches!(frames.mode, WindowMode::Hidden),
            _ => false,
        }
    }

    fn judge(&self, event: HideEvent) -> (r: Result<HideStage, Error>)
        ensures
            match self.verdict(event) {
                HideVerdict::Go(stage) => r == Ok::<HideStage, Error>(stage),
                HideVerdict::Fail(why) => r matches Err(e) && is_invalid(e, why),
                HideVerdict::Abort => event matches HideEvent::Broken(e) && r == Err::<
                    HideStage,
                    Error,
                >(e),
            },
    {
        match event {
            HideEvent::Broken(e) => {
                return Err(e);
            },
            HideEvent::Overdue(why) => {
                return Err(wait_failure(self.case.as_str(), why.as_str()));
            },
            HideEvent::Refused(why) => {
                let mut s = if matches!(self.stage, HideStage::Hiding) {
                    "hide(on)".to_owned()
                } else {
                    "hide(off)".to_owned()
                };
                s.append(" request failed: ");
                s.append(why.as_str());
                return Err(Error::InvalidState(s));
            },
            _ => {},
        }
        match self.stage {
            HideStage::Measuring => match event {
                HideEvent::Seen(_) => Ok(HideStage::Raising),
                _ => Err(Error::invalid("hide: frames unavailable after spawn")),
            },
            HideStage::Raising => match event {
                HideEvent::Done => Ok(HideStage::Readying),
                _ => Ok(HideStage::Raising),
            },
            HideStage::Readying => match event {
                HideEvent::Seen(frames) => if matches!(frames.mode, WindowMode::Normal) {
                    Ok(HideStage::Hiding)
                } else {
                    Ok(HideStage::Readying)
                },
                _ => Ok(HideStage::Readying),
            },
            HideStage::Hiding => self.check_command(
                true,
                &event,
                HideStage::Hiding,
                HideStage::Vanishing,
            ),
            HideStage::Vanishing => if Self::is_hidden(&event) {
                Ok(HideStage::Showing)
            } else {
                Ok(HideStage::Vanishing)
            },
            HideStage::Showing => self.check_command(
                false,
                &event,
                HideStage::Showing,
                HideStage::Returning,
            ),
            HideStage::Returning => match event {
                HideEvent::Seen(frames) => {
                    if !is_restored(&frames, self.expected, self.eps) {
                        return Ok(HideStage::Returning);
                    }
                    if self.hidden_observed {
                        Ok(HideStage::Checking)
                    } else {
                        Err(Error::invalid("hide case did not observe hidden window state"))
                    }
                },
                _ => Ok(HideStage::Returning),
            },
            HideStage::Checking => match event {
                HideEvent::Seen(frames) => {
                    if !matches!(frames.mode, WindowMode::Normal) {
                        let mut s = "hide: expected Normal mode after restore, saw ".to_owned();
                        s.append(frames.mode.name());
                        return Err(Error::InvalidState(s));
                    }
                    match assert_frame_matches(
                        self.case.as_str(),
                        self.expected,
                        &frames,
                        self.eps,
                    ) {
                        Ok(()) => Ok(HideStage::Ending),
                        Err(e) => Err(e),
                    }
                },
                _ => Err(Error::invalid("hide: final frames unavailable")),
            },
            HideStage::Ending => match event {
                HideEvent::Done => Ok(HideStage::Over),
                _ => Ok(HideStage::Ending),
            },
            HideStage::Over => Ok(HideStage::Over),
        }
    }

    fn call(&self) -> (r: HideAction)
        ensures
            r == self.action(),
    {
        match self.stage {
            HideStage::Measuring => HideAction::ReadFrames,
            HideStage::Raising => HideAction::RaiseWindow,
            HideStage::Readying => HideAction::AwaitMode(WindowMode::Normal),
            HideStage::Hiding => HideAction::RequestHide(true),
            HideStage::Vanishing => HideAction::AwaitMode(WindowMode::Hidden),
            HideStage::Showing => HideAction::RequestHide(false),
            HideStage::Returning => HideAction::AwaitRestored(self.expected, self.eps),
            HideStage::Checking => HideAction::ReadFrames,
            HideStage::Ending => HideAction::Shutdown,
            HideStage::Over => HideAction::Finish(Ok(())),
        }
    }

    /// The run in its next stage, with what an event showed.
    pub open spec fn advanced(self, event: HideEvent, stage: HideStage) -> HideRun {
        HideRun {
            expected: match event {
                HideEvent::Seen(frames) => if self.stage is Measuring {
                    frames.authoritative
                } else {
                    self.expected
                },
                _ => self.expected,
            },
            hidden_observed: self.hidden_observed || (self.stage is Vanishing && shows_mode(
                event,
                WindowMode::Hidden,
            )),
            stage,
            ..self
        }
    }

    /// The run after an event: a case that fails is over.
    pub open spec fn after(self, event: HideEvent) -> HideRun {
        match self.verdict(event) {
            HideVerdict::Go(stage) => self.advanced(event, stage),
            _ => HideRun { stage: HideStage::Over, ..self },
        }
    }

    /// Take in what was learned, and say what to do next.
    pub fn next(&mut self, event: HideEvent) -> (r: HideAction)
        requires
            !(old(self).stage is Over),
        ensures
            *final(self) == old(self).after(event),
            match old(self).verdict(event) {
                HideVerdict::Go(stage) => r == final(self).action(),
                HideVerdict::Fail(why) => r matches HideAction::Finish(Err(e)) && is_invalid(e, why),
                HideVerdict::Abort => event matches HideEvent::Broken(e) && r
                    == HideAction::Finish(Err(e)),
            },
    {
        let measured = match (&event, self.stage) {
            (HideEvent::Seen(frames), HideStage::Measuring) => Some(frames.authoritative),
            _ => None,
        };
        let hidden = Self::is_hidden(&event);
        match self.judge(event) {
            Ok(stage) => {
                if let Some(rect) = measured {
                    self.expected = rect;
                }
                if hidden && matches!(self.stage, HideStage::Vanishing) {
                    self.hidden_observed = true;
                }
                self.stage = stage;
                self.call()
            },
            Err(e) => {
                self.stage = HideStage::Over;
                HideAction::Finish(Err(e))
            },
        }
    }
}

/// The stages come in order: an event leads to the next stage, or leaves the case
/// in a stage that still waits.
pub proof fn hide_stages_come_in_order(run: HideRun, event: HideEvent)
    ensures
        run.verdict(event) matches HideVerdict::Go(stage) ==> hide_rank(stage) == hide_rank(
            run.stage,
        ) || hide_rank(stage) == hide_rank(run.stage) + 1,
{
}

/// Position of a stage in the case.
pub open spec fn hide_rank(stage: HideStage) -> int {
    match stage {
        HideStage::Measuring => 0,
        HideStage::Raising => 1,
        HideStage::Readying => 2,
        HideStage::Hiding => 3,
        HideStage::Vanishing => 4,
        HideStage::Showing => 5,
        HideStage::Returning => 6,
        HideStage::Checking => 7,
        HideStage::Ending => 8,
        HideStage::Over => 9,
    }
}

/// A run after a series of events.
pub open spec fn hide_after(start: HideRun, events: Seq<HideEvent>) -> HideRun
    decreases events.len(),
{
    if events.len() == 0 {
        start
    } else {
        hide_after(start, events.drop_last()).after(events.last())
    }
}

/// Whether the window was seen hidden.
pub open spec fn was_hidden(events: Seq<HideEvent>) -> bool {
    exists|i: int| 0 <= i < events.len() && shows_mode(#[trigger] events[i], WindowMode::Hidden)
}

/// Whether the window was seen hidden, and later in its normal state at a place.
pub open spec fn hidden_then_back(events: Seq<HideEvent>, place: RectPx, eps: i32) -> bool {
    exists|i: int, j: int|
        0 <= i < j < events.len() && shows_mode(#[trigger] events[i], WindowMode::Hidden)
            && shows_back(#[trigger] events[j], place, eps)
}

/// Whether the window was first seen at a place.
pub open spec fn first_seen_at(events: Seq<HideEvent>, place: RectPx) -> bool {
    events.len() > 0 && (events[0] matches HideEvent::Seen(frames) && frames.authoritative == place)
}

spec fn hide_sound(run: HideRun, events: Seq<HideEvent>) -> bool {
    &&& run.stage is Measuring <==> events.len() == 0
    &&& !(run.stage is Measuring) && !(run.stage is Over) ==> first_seen_at(events, run.expected)
    &&& run.hidden_observed ==> was_hidden(events)
    &&& hide_rank(run.stage) > hide_rank(HideStage::Vanishing) && !(run.stage is Over)
        ==> run.hidden_observed
    &&& run.stage is Ending ==> hidden_then_back(events, run.expected, run.eps)
}

proof fn hide_stays_sound(start: HideRun, events: Seq<HideEvent>)
    requires
        start.stage is Measuring,
        !start.hidden_observed,
    ensures
        hide_sound(hide_after(start, events), events),
        hide_after(start, events).eps == start.eps,
    decreases events.len(),
{
    if events.len() > 0 {
        let before = events.drop_last();
        let event = events.last();
        let run = hide_after(start, before);
        let now = run.after(event);
        hide_stays_sound(start, before);
        if before.len() > 0 {
            assert(events[0] == before[0]);
        }
        if run.hidden_observed {
            let i = choose|i: int|
                0 <= i < before.len() && shows_mode(#[trigger] before[i], WindowMode::Hidden);
            assert(shows_mode(events[i], WindowMode::Hidden));
            if now.stage is Ending && run.stage is Checking {
                assert(shows_back(events[events.len() - 1], now.expected, now.eps));
                assert(hidden_then_back(events, now.expected, now.eps));
            }
        }
        if now.hidden_observed && !run.hidden_observed {
            assert(shows_mode(events[events.len() - 1], WindowMode::Hidden));
        }
        if now.stage is Ending && run.stage is Ending {
            let (i, j) = choose|i: int, j: int|
                0 <= i < j < before.len() && shows_mode(
                    #[trigger] before[i],
                    WindowMode::Hidden,
                ) && shows_back(#[trigger] before[j], run.expected, run.eps);
            assert(shows_mode(events[i], WindowMode::Hidden));
            assert(shows_back(events[j], now.expected, now.eps));
        }
    }
}

/// The helper is ended only after the window was seen hidden, and then seen in its
/// normal state where it was at first.
pub proof fn ending_means_hidden_and_restored(start: HideRun, events: Seq<HideEvent>)
    requires
        start.stage is Measuring,
        !start.hidden_observed,
        hide_after(start, events).stage is Ending,
    ensures
        first_seen_at(events, hide_after(start, events).expected),
        hidden_then_back(events, hide_after(start, events).expected, start.eps),
{
    hide_stays_sound(start, events);
}

} // verus!
