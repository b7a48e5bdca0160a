//! Waits that look again and again, or listen, until a deadline.

use vstd::prelude::*;

use crate::smoketest::config::{ms, NANOS_PER_MS};
use crate::text::text_eq;

verus! {

/// The longest wait for one event, in milliseconds.
pub const EVENT_CHUNK_MS: u64 = 300;

/// A wait that ends with what is awaited, or with its time.
#[derive(Debug, Clone, Copy, PartialEq, Eq, Structural)]
pub struct TimedLook {
    /// When the wait ends.
    pub deadline: u128,
    /// Pause between looks, in milliseconds.
    pub pause_ms: u64,
}

/// What to do while something is awaited.
#[derive(Debug, Clone, Copy, PartialEq, Eq, Structural)]
pub enum LookStep {
    /// Look.
    Look,
    /// Pause for milliseconds.
    Pause(u64),
    /// The wait is over: whether what was awaited is there.
    Over(bool),
}

impl TimedLook {
    /// Begin a wait.
    pub fn start(timeout_ms: u64, pause_ms: u64, now: u64) -> (r: (Self, LookStep))
        ensures
            r.0.deadline == now + timeout_ms * NANOS_PER_MS,
            r.0.pause_ms == pause_ms,
            r.1 == if timeout_ms > 0 {
                LookStep::Look
            } else {
                LookStep::Over(false)
            },
    {
        let deadline: u128 = now as u128 + ms(timeout_ms);
        if timeout_ms > 0 {
            (TimedLook { deadline, pause_ms }, LookStep::Look)
        } else {
            (TimedLook { deadline, pause_ms }, LookStep::Over(false))
        }
    }

    /// Take in what a look came to.
    pub fn seen(&self, there: bool) -> (r: LookStep)
        ensures
            r == if there {
                LookStep::Over(true)
            } else {
                LookStep::Pause(self.pause_ms)
            },
    {
        if there {
            LookStep::Over(true)
        } else {
            LookStep::Pause(self.pause_ms)
        }
    }

    /// Go on after a pause.
    pub fn rested(&self, now: u64) -> (r: LookStep)
        ensures
            r == if now < self.deadline {
                LookStep::Look
            } else {
                LookStep::Over(false)
            },
    {
        if (now as u128) < self.deadline {
            LookStep::Look
        } else {
            LookStep::Over(false)
        }
    }
}

/// What comes while the HUD is listened to.
#[derive(Debug)]
pub enum HudNews {
    /// The HUD was updated, with this window in focus.
    Focus(Option<String>),
    /// Something else.
    Unrelated,
    /// The connection is lost.
    Lost,
    /// Nothing.
    Quiet,
}

/// What to do while the HUD is listened to.
#[derive(Debug, Clone, Copy, PartialEq, Eq, Structural)]
pub enum ListenStep {
    /// Listen for at most some nanoseconds.
    Listen(u64),
    /// It is over: whether the window was in focus.
    Over(bool),
}

/// Nanoseconds to listen for.
pub open spec fn listen_for(deadline: u128, now: u64) -> int {
    if deadline - now < EVENT_CHUNK_MS * NANOS_PER_MS {
        deadline - now
    } else {
        EVENT_CHUNK_MS * NANOS_PER_MS
    }
}

impl TimedLook {
    /// Listen while there is time.
    pub fn listen(&self, now: u64) -> (r: ListenStep)
        ensures
            r == if now < self.deadline {
                ListenStep::Listen(listen_for(self.deadline, now) as u64)
            } else {
                ListenStep::Over(false)
            },
    {
        if (now as u128) < self.deadline {
            let left: u128 = self.deadline - now as u128;
            let chunk: u128 = ms(EVENT_CHUNK_MS);
            if left < chunk {
                ListenStep::Listen(left as u64)
            } else {
                ListenStep::Listen(chunk as u64)
            }
        } else {
            ListenStep::Over(false)
        }
    }

    /// Take in news of the HUD.
    pub fn heard(&self, news: &HudNews, expected: &str, now: u64) -> (r: ListenStep)
        ensures
            match news {
                HudNews::Focus(Some(title)) if title@ == expected@ => r == ListenStep::Over(true),
                HudNews::Lost => r == ListenStep::Over(false),
                _ => r == if now < self.deadline {
                    ListenStep::Listen(listen_for(self.deadline, now) as u64)
                } else {
                    ListenStep::Over(false)
                },
            },
    {
        match news {
            HudNews::Focus(Some(title)) => {
                if text_eq(title.as_str(), expected) {
                    return ListenStep::Over(true);
                }
                self.listen(now)
            },
            HudNews::Lost => ListenStep::Over(false),
            _ => self.listen(now),
        }
    }
}

/// A wait that finds nothing ends once its deadline has passed.
pub proof fn waits_end(wait: TimedLook, now: u64, rested: LookStep, listened: ListenStep)
    requires
        now >= wait.deadline,
        call_ensures(TimedLook::rested, (&wait, now), rested),
        call_ensures(TimedLook::listen, (&wait, now), listened),
    ensures
        rested == LookStep::Over(false),
        listened == ListenStep::Over(false),
{
}

} // verus!
