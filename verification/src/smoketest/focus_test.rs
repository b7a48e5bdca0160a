//! The focus test: a helper window has to be reported in focus.

use vstd::prelude::*;
use vstd::string::*;

use crate::smoketest::config::NANOS_PER_MS;
use crate::smoketest::error::Error;
use crate::smoketest::timed_look::{LookStep, TimedLook};
use crate::text::text_eq;

verus! {

/// What comes while the focus is listened for.
#[derive(Debug)]
pub enum FocusNews {
    /// The HUD was updated, with this window and process in focus.
    Focus(Option<(String, i32)>),
    /// Something else, or nothing.
    Quiet,
    /// The connection is lost.
    Lost,
}

/// What to do while the focus is listened for.
#[derive(Debug)]
pub enum FocusStep {
    /// Go on listening.
    Listen,
    /// The window is in focus.
    Found(String, i32),
    /// Stop.
    Stop,
}

/// Take in news; `done` says that nobody waits any more.
pub fn listen_for_focus(done: bool, news: FocusNews, expected_title: &str) -> (r: FocusStep)
    ensures
        if done {
            r is Stop
        } else {
            match news {
                FocusNews::Focus(Some((title, pid))) => if title@ == expected_title@ {
                    r == FocusStep::Found(title, pid)
                } else {
                    r is Listen
                },
                FocusNews::Lost => r is Stop,
                _ => r is Listen,
            }
        },
{
    if done {
        return FocusStep::Stop;
    }
    match news {
        FocusNews::Focus(Some((title, pid))) => {
            if text_eq(title.as_str(), expected_title) {
                FocusStep::Found(title, pid)
            } else {
                FocusStep::Listen
            }
        },
        FocusNews::Lost => FocusStep::Stop,
        _ => FocusStep::Listen,
    }
}

/// The window that was found in focus.
#[derive(Debug)]
pub struct FocusOutcome {
    /// Its title.
    pub title: String,
    /// Its process.
    pub pid: i32,
    /// Milliseconds until it was found.
    pub elapsed_ms: u64,
}

/// What the test comes to once listening has stopped: the window that was matched, or
/// the helper's where only the match itself is known.
pub open spec fn focus_judged(
    found: bool,
    matched: Option<(String, i32)>,
    title: String,
    pid: i32,
    timeout_ms: u64,
    elapsed_ms: u64,
) -> Result<FocusOutcome, Error> {
    if !found {
        Err(Error::FocusNotObserved { timeout_ms, expected: title })
    } else {
        match matched {
            Some((title, pid)) => Ok(FocusOutcome { title, pid, elapsed_ms }),
            None => Ok(FocusOutcome { title, pid, elapsed_ms }),
        }
    }
}

/// How far the test has come.
#[derive(Debug, Clone, Copy, PartialEq, Eq, Structural)]
pub enum FocusTestStage {
    /// The session is launched.
    Launching,
    /// Listening is started.
    Hooking,
    /// The helper window is started.
    Spawning,
    /// The match is awaited.
    Watching,
    /// Listening is stopped.
    Stopping,
    /// The test is over.
    Over,
}

/// What was learned in the test.
#[derive(Debug)]
pub enum FocusTestEvent {
    /// The step is done.
    Done,
    /// The step has failed.
    Failed(Error),
    /// The helper runs in a process.
    Spawned(i32),
    /// Whether a match was reported.
    Found(bool),
    /// The pause is over.
    Rested,
    /// Listening has stopped: whether a match was reported, and the match where it is
    /// known.
    Stopped(bool, Option<(String, i32)>),
}

/// What to do in the test.
#[derive(Debug)]
pub enum FocusTestAction {
    /// Launch the session.
    Launch,
    /// Listen for the focus, aside from the test.
    StartListening,
    /// Start the helper window, to stay for milliseconds.
    SpawnHelper(u64),
    /// See whether a match was reported.
    CheckFound,
    /// Pause for milliseconds.
    Pause(u64),
    /// Stop listening, and wait until it has stopped.
    StopListening,
    /// The test is over.
    Finish(Result<FocusOutcome, Error>),
}

/// A run of the test.
#[derive(Debug)]
pub struct FocusTest {
    /// Title of the helper window.
    pub title: String,
    /// Allowance in milliseconds.
    pub timeout_ms: u64,
    /// How long the helper stays beyond the allowance, in milliseconds.
    pub extra_ms: u64,
    /// The wait for a match.
    pub wait: TimedLook,
    /// When the wait began.
    pub started: u64,
    /// Process of the helper.
    pub pid: i32,
    /// How far the test has come.
    pub stage: FocusTestStage,
}

impl FocusTest {
    /// How long the helper stays.
    pub open spec fn helper_ms(&self) -> u64 {
        if self.timeout_ms + self.extra_ms > u64::MAX {
            u64::MAX
        } else {
            (self.timeout_ms + self.extra_ms) as u64
        }
    }

    /// Milliseconds since the wait began.
    pub open spec fn elapsed_ms(&self, now: u64) -> u64 {
        if now >= self.started {
            ((now - self.started) / NANOS_PER_MS as int) as u64
        } else {
            0
        }
    }

    /// Whether an event can come in a stage.
    pub open spec fn fits(&self, event: FocusTestEvent) -> bool {
        match self.stage {
            FocusTestStage::Launching | FocusTestStage::Hooking => event is Done || event is Failed,
            FocusTestStage::Spawning => event is Spawned || event is Failed,
            FocusTestStage::Watching => event is Found || event is Rested,
            FocusTestStage::Stopping => event is Stopped,
            FocusTestStage::Over => false,
        }
    }

    /// Whether the test goes on in a stage, with nothing else changed.
    pub open spec fn moved_to(&self, stage: FocusTestStage, after: FocusTest) -> bool {
        after == (FocusTest { stage, ..*self })
    }

    /// Whether an event is answered as it has to be.
    pub open spec fn answered(
        &self,
        event: FocusTestEvent,
        now: u64,
        after: FocusTest,
        action: FocusTestAction,
    ) -> bool {
        match (self.stage, event) {
            (_, FocusTestEvent::Failed(e)) => self.moved_to(FocusTestStage::Over, after) && action
                == FocusTestAction::Finish(Err(e)),
            (FocusTestStage::Launching, _) => self.moved_to(FocusTestStage::Hooking, after)
                && action is StartListening,
            (FocusTestStage::Hooking, _) => self.moved_to(FocusTestStage::Spawning, after)
                && action == FocusTestAction::SpawnHelper(self.helper_ms()),
            (FocusTestStage::Spawning, FocusTestEvent::Spawned(pid)) => {
                let waiting = FocusTest {
                    pid,
                    started: now,
                    wait: TimedLook {
                        deadline: (now + self.timeout_ms * NANOS_PER_MS) as u128,
                        pause_ms: self.wait.pause_ms,
                    },
                    ..*self
                };
                if self.timeout_ms > 0 {
                    waiting.moved_to(FocusTestStage::Watching, after) && action is CheckFound
                } else {
                    waiting.moved_to(FocusTestStage::Stopping, after) && action is StopListening
                }
            },
            (FocusTestStage::Watching, FocusTestEvent::Found(there)) => if there {
                self.moved_to(FocusTestStage::Stopping, after) && action is StopListening
            } else {
                after == *self && action == FocusTestAction::Pause(self.wait.pause_ms)
            },
            (FocusTestStage::Watching, FocusTestEvent::Rested) => if now < self.wait.deadline {
                after == *self && action is CheckFound
            } else {
                self.moved_to(FocusTestStage::Stopping, after) && action is StopListening
            },
            (FocusTestStage::Stopping, FocusTestEvent::Stopped(found, matched)) => {
                &&& after.stage is Over
                &&& action == FocusTestAction::Finish(
                    focus_judged(
                        found,
                        matched,
                        self.title,
                        self.pid,
                        self.timeout_ms,
                        self.elapsed_ms(now),
                    ),
                )
            },
            _ => false,
        }
    }

    /// Begin the test, with the pause between looks.
    pub fn run_focus_test(title: String, timeout_ms: u64, extra_ms: u64, poll_ms: u64) -> (r: (
        Self,
        FocusTestAction,
    ))
        ensures
            r.0.title == title,
            r.0.timeout_ms == timeout_ms,
            r.0.extra_ms == extra_ms,
            r.0.wait.pause_ms == poll_ms,
            r.0.stage is Launching,
            r.1 is Launch,
    {
        (
            FocusTest {
                title,
                timeout_ms,
                extra_ms,
                wait: TimedLook { deadline: 0, pause_ms: poll_ms },
                started: 0,
                pid: 0,
                stage: FocusTestStage::Launching,
            },
            FocusTestAction::Launch,
        )
    }

    fn follow(&mut self, step: LookStep) -> (r: FocusTestAction)
        ensures
            match step {
                LookStep::Look => old(self).moved_to(FocusTestStage::Watching, *final(self))
                    && r is CheckFound,
                LookStep::Pause(n) => old(self).moved_to(FocusTestStage::Watching, *final(self))
                    && r == FocusTestAction::Pause(n),
                LookStep::Over(_) => old(self).moved_to(FocusTestStage::Stopping, *final(self))
                    && r is StopListening,
            },
    {
        match step {
            LookStep::Look => {
                self.stage = FocusTestStage::Watching;
                FocusTestAction::CheckFound
            },
            LookStep::Pause(n) => {
                self.stage = FocusTestStage::Watching;
                FocusTestAction::Pause(n)
            },
            LookStep::Over(_) => {
                self.stage = FocusTestStage::Stopping;
                FocusTestAction::StopListening
            },
        }
    }

    /// Take in what was learned, and say what to do next.
    pub fn next(&mut self, event: FocusTestEvent, now: u64) -> (r: FocusTestAction)
        requires
            old(self).fits(event),
        ensures
            old(self).answered(event, now, *final(self), r),
    {
        match event {
            FocusTestEvent::Failed(e) => {
                self.stage = FocusTestStage::Over;
                FocusTestAction::Finish(Err(e))
            },
            FocusTestEvent::Done => {
                if matches!(self.stage, FocusTestStage::Launching) {
                    self.stage = FocusTestStage::Hooking;
                    FocusTestAction::StartListening
                } else {
                    self.stage = FocusTestStage::Spawning;
                    let stay: u64 = match self.timeout_ms.checked_add(self.extra_ms) {
                        Some(n) => n,
                        None => u64::MAX,
                    };
                    FocusTestAction::SpawnHelper(stay)
                }
            },
            FocusTestEvent::Spawned(pid) => {
                let (wait, step) = TimedLook::start(self.timeout_ms, self.wait.pause_ms, now);
                self.pid = pid;
                self.started = now;
                self.wait = wait;
                self.follow(step)
            },
            FocusTestEvent::Found(there) => self.follow(self.wait.seen(there)),
            FocusTestEvent::Rested => self.follow(self.wait.rested(now)),
            FocusTestEvent::Stopped(found, matched) => {
                self.stage = FocusTestStage::Over;
                let elapsed_ms: u64 = if now >= self.started {
                    (now - self.started) / NANOS_PER_MS
                } else {
                    0
                };
                let title = self.title.clone();
                FocusTestAction::Finish(
                    if !found {
                        Err(Error::FocusNotObserved { timeout_ms: self.timeout_ms, expected: title })
                    } else {
                        match matched {
                            Some((title, pid)) => Ok(FocusOutcome { title, pid, elapsed_ms }),
                            None => Ok(FocusOutcome { title, pid: self.pid, elapsed_ms }),
                        }
                    },
                )
            },
        }
    }
}

/// The match is looked for until it is found or the time is up, and the test is judged
/// only after listening has stopped.
pub proof fn listening_stops_before_the_judgement(
    before: FocusTest,
    event: FocusTestEvent,
    now: u64,
    after: FocusTest,
    action: FocusTestAction,
)
    requires
        before.fits(event),
        before.answered(event, now, after, action),
    ensures
        before.stage is Watching ==> (after.stage is Stopping <==> event
            == FocusTestEvent::Found(true) || (event is Rested && now >= before.wait.deadline)),
        before.stage is Watching && !(after.stage is Stopping) ==> after.stage is Watching,
        action is StopListening <==> after.stage is Stopping,
        (action matches FocusTestAction::Finish(r) && r is Ok) ==> before.stage is Stopping && (
        event matches FocusTestEvent::Stopped(found, _) && found),
{
}

} // verus!
