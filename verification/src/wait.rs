//! Waiting for a window to appear.

use vstd::prelude::*;

use crate::geom::min_int;
use crate::pick::{first_where_at, first_where_none, pick_where};
use crate::text::text_eq;
use crate::window::WindowInfo;

verus! {

/// The first window of a process with a title.
pub open spec fn titled(windows: Seq<WindowInfo>, pid: i32, title: Seq<char>) -> Option<WindowInfo> {
    pick_where(windows, |w: WindowInfo| w.pid == pid && w.title@ == title)
}

/// The identifier of the first window of a process with a title.
pub fn search_window(windows: &Vec<WindowInfo>, pid: i32, title: &str) -> (r: Option<u32>)
    ensures
        match titled(windows@, pid, title@) {
            Some(w) => r == Some(w.id),
            None => r is None,
        },
{
    let ghost wanted = |w: WindowInfo| w.pid == pid && w.title@ == title@;
    let mut i: usize = 0;
    while i < windows.len()
        invariant
            i <= windows@.len(),
            wanted == |w: WindowInfo| w.pid == pid && w.title@ == title@,
            forall|j: int| 0 <= j < i ==> !wanted(#[trigger] windows@[j]),
        decreases windows@.len() - i,
    {
        if windows[i].pid == pid && text_eq(windows[i].title.as_str(), title) {
            proof {
                first_where_at(windows@, wanted, i as int);
            }
            return Some(windows[i].id);
        }
        i = i + 1;
    }
    proof {
        first_where_none(windows@, wanted);
    }
    None
}

/// The next thing to do while waiting for a window.
#[derive(Debug, Clone, Copy, PartialEq, Eq, Structural)]
pub enum FindStep {
    /// List the windows on the active spaces and search them.
    ListActive,
    /// List the windows of all spaces and search them.
    ListAll,
    /// Look at the clock.
    CheckClock,
    /// Let other threads run, then list again.
    Yield,
    /// Wait for some nanoseconds, then list again.
    Sleep(u64),
    /// The wait is over, with the window or without.
    Finished(Option<u32>),
}

/// What a step found out.
#[derive(Debug, Clone, Copy, PartialEq, Eq, Structural)]
pub enum FindEvent {
    /// A search, with its result.
    Searched(Option<u32>),
    /// The time now, in nanoseconds.
    Clock(u64),
    /// A pause is over.
    Rested,
}

/// A wait for a window.
#[derive(Debug, Clone, Copy, PartialEq, Eq, Structural)]
pub struct FindWindow {
    /// When the wait ends, in nanoseconds.
    pub deadline_ns: u64,
    /// Pause between two searches, in nanoseconds.
    pub poll_ns: u64,
    /// Whether all spaces have been searched.
    pub tried_all: bool,
    /// The step in progress.
    pub step: FindStep,
}

/// The wait after an event. All spaces are searched once, after the first
/// search of the active ones.
pub open spec fn find_next(f: FindWindow, event: FindEvent) -> FindWindow {
    match (f.step, event) {
        (FindStep::ListActive, FindEvent::Searched(found)) => FindWindow {
            step: if found is Some {
                FindStep::Finished(found)
            } else if !f.tried_all {
                FindStep::ListAll
            } else {
                FindStep::CheckClock
            },
            ..f
        },
        (FindStep::ListAll, FindEvent::Searched(found)) => FindWindow {
            step: if found is Some {
                FindStep::Finished(found)
            } else {
                FindStep::CheckClock
            },
            tried_all: true,
            ..f
        },
        (FindStep::CheckClock, FindEvent::Clock(now)) => FindWindow {
            step: if now >= f.deadline_ns {
                FindStep::Finished(None)
            } else if f.poll_ns == 0 {
                FindStep::Yield
            } else {
                FindStep::Sleep(min_int(f.poll_ns as int, f.deadline_ns - now) as u64)
            },
            ..f
        },
        (FindStep::Yield, FindEvent::Rested) => FindWindow { step: FindStep::ListActive, ..f },
        (FindStep::Sleep(_), FindEvent::Rested) => FindWindow { step: FindStep::ListActive, ..f },
        _ => f,
    }
}

impl FindWindow {
    /// A wait that begins now and lasts `timeout_ns` nanoseconds.
    pub fn find_window_id(now_ns: u64, timeout_ns: u64, poll_ns: u64) -> (r: Self)
        ensures
            r.deadline_ns == min_int(now_ns + timeout_ns, u64::MAX as int),
            r.poll_ns == poll_ns,
            !r.tried_all,
            r.step is ListActive,
    {
        FindWindow {
            deadline_ns: now_ns.saturating_add(timeout_ns),
            poll_ns,
            tried_all: false,
            step: FindStep::ListActive,
        }
    }

    /// Take in an event and say what to do next.
    pub fn advance(&mut self, event: FindEvent) -> (r: FindStep)
        ensures
            *final(self) == find_next(*old(self), event),
            r == final(self).step,
    {
        match (self.step, event) {
            (FindStep::ListActive, FindEvent::Searched(found)) => {
                if found.is_some() {
                    self.step = FindStep::Finished(found);
                } else if !self.tried_all {
                    self.step = FindStep::ListAll;
                } else {
                    self.step = FindStep::CheckClock;
                }
            },
            (FindStep::ListAll, FindEvent::Searched(found)) => {
                self.tried_all = true;
                if found.is_some() {
                    self.step = FindStep::Finished(found);
                } else {
                    self.step = FindStep::CheckClock;
                }
            },
            (FindStep::CheckClock, FindEvent::Clock(now)) => {
                if now >= self.deadline_ns {
                    self.step = FindStep::Finished(None);
                } else if self.poll_ns == 0 {
                    self.step = FindStep::Yield;
                } else {
                    let left: u64 = self.deadline_ns - now;
                    self.step = FindStep::Sleep(
                        if self.poll_ns <= left {
                            self.poll_ns
                        } else {
                            left
                        },
                    );
                }
            },
            (FindStep::Yield, FindEvent::Rested) => {
                self.step = FindStep::ListActive;
            },
            (FindStep::Sleep(_), FindEvent::Rested) => {
                self.step = FindStep::ListActive;
            },
            _ => {},
        }
        self.step
    }
}

/// A wait never sleeps past its deadline, and gives up only at or after it.
pub proof fn waits_end_on_time(f: FindWindow, now: u64)
    requires
        f.step is CheckClock,
    ensures
        find_next(f, FindEvent::Clock(now)).step == FindStep::Finished(None) <==> now
            >= f.deadline_ns,
        find_next(f, FindEvent::Clock(now)).step matches FindStep::Sleep(ns) ==> now + ns
            <= f.deadline_ns && 0 < ns <= f.poll_ns,
{
}

} // verus!
