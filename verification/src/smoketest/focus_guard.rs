//! Keeping a helper window in front, as the world service and Accessibility both
//! see it.

use vstd::prelude::*;
use vstd::string::*;

use crate::pick::{first_where_at, first_where_none, pick_where};
use crate::smoketest::case_plan::{deadline_for, scaled_deadline};
use crate::smoketest::error::{is_invalid, DriverError, Error};
use crate::text::{dec_int, decimal_signed, text_eq};

verus! {

/// Most attempts before giving up.
pub const MAX_ATTEMPTS: u32 = 5;

/// A window as the world service reports it.
#[derive(Debug)]
pub struct SnapshotWindow {
    /// Process of the window.
    pub pid: i32,
    /// Identifier of the window.
    pub id: u32,
    /// Title of the window.
    pub title: String,
    /// Whether the window has the focus.
    pub focused: bool,
    /// Whether the window is on the active space.
    pub on_active_space: bool,
}

/// A guard that keeps a helper window in front.
#[derive(Debug)]
pub struct FocusGuard {
    /// Process that has to keep the focus.
    pub pid: i32,
    /// Title of the window.
    pub title: String,
    /// Process and identifier of the window, when known.
    pub window: Option<(i32, u32)>,
    /// Allowance for raising the window in milliseconds.
    pub raise_deadline_ms: u64,
    /// Attempts of the reassertion under way; none between reassertions.
    pub attempts: u32,
    /// The last failure of the reassertion under way.
    pub last_error: Option<Error>,
}

/// Whether a window is the guarded one.
pub open spec fn is_guarded(pid: i32, title: Seq<char>) -> spec_fn(SnapshotWindow) -> bool {
    |w: SnapshotWindow| w.pid == pid && w.title@ == title
}

/// What comes after an attempt.
#[derive(Debug)]
pub enum GuardStep {
    /// The window is in front.
    Settled,
    /// Try once more after the retry delay.
    Again,
    /// Give up.
    GiveUp(Error),
}

/// The message when the window never got in front.
pub open spec fn unsettled_text(title: Seq<char>, pid: i32) -> Seq<char> {
    "focus guard: window '"@ + title + "' (pid "@ + dec_int(pid as int) + ") failed to settle"@
}

fn find_guarded(windows: &Vec<SnapshotWindow>, pid: i32, title: &str) -> (r: Option<usize>)
    ensures
        match r {
            Some(i) => i < windows@.len() && pick_where(windows@, is_guarded(pid, title@)) == Some(
                windows@[i as int],
            ),
            None => pick_where(windows@, is_guarded(pid, title@)) is None,
        },
{
    let ghost p = is_guarded(pid, title@);
    let mut i: usize = 0;
    while i < windows.len()
        invariant
            i <= windows@.len(),
            p == is_guarded(pid, title@),
            forall|j: int| 0 <= j < i ==> !p(#[trigger] windows@[j]),
        decreases windows@.len() - i,
    {
        if windows[i].pid == pid && text_eq(windows[i].title.as_str(), title) {
            proof {
                first_where_at(windows@, p, i as int);
            }
            return Some(i);
        }
        i = i + 1;
    }
    proof {
        first_where_none(windows@, p);
    }
    None
}

impl FocusGuard {
    /// A guard for a window; it has made no attempt yet.
    pub fn acquire(
        pid: i32,
        title: String,
        window: Option<(i32, u32)>,
        ui_action_delay_ms: u64,
    ) -> (r: Self)
        ensures
            r == (FocusGuard {
                pid,
                title,
                window,
                raise_deadline_ms: scaled_deadline(ui_action_delay_ms, 20, 1_000),
                attempts: 0,
                last_error: None,
            }),
    {
        FocusGuard {
            pid,
            title,
            window,
            raise_deadline_ms: deadline_for(ui_action_delay_ms, 20, 1_000),
            attempts: 0,
            last_error: None,
        }
    }

    /// The window to raise: the one known, else the first of the process with the
    /// title.
    pub fn resolve_window_id(&self, windows: &Vec<SnapshotWindow>) -> (r: Option<(i32, u32)>)
        ensures
            r == (match self.window {
                Some(id) => Some(id),
                None => match pick_where(windows@, is_guarded(self.pid, self.title@)) {
                    Some(w) => Some((self.pid, w.id)),
                    None => None,
                },
            }),
    {
        if let Some(id) = self.window {
            return Some(id);
        }
        match find_guarded(windows, self.pid, self.title.as_str()) {
            Some(i) => Some((self.pid, windows[i].id)),
            None => None,
        }
    }

    /// What one pass of raising came to: a failed lookup counts first, then a
    /// failed raise, then a failed request to come to the front.
    pub fn raise_once(
        front: Result<(), Error>,
        lookup: Result<Option<Result<(), Error>>, Error>,
    ) -> (r: Result<(), Error>)
        ensures
            match lookup {
                Err(e) => r == Err::<(), Error>(e),
                Ok(Some(Err(e))) => r == Err::<(), Error>(e),
                Ok(_) => r == front,
            },
    {
        match lookup {
            Err(e) => Err(e),
            Ok(Some(Err(e))) => Err(e),
            Ok(_) => front,
        }
    }

    /// Whether a snapshot shows the window in front. Without a connection the
    /// world service is not asked.
    pub open spec fn world_agrees(&self, world: Result<Vec<SnapshotWindow>, DriverError>) -> bool {
        match world {
            Ok(windows) => pick_where(windows@, is_guarded(self.pid, self.title@)) matches Some(w)
                && w.focused && w.on_active_space,
            Err(e) => e is NotInitialized,
        }
    }

    /// Whether Accessibility sees the window in front.
    pub open spec fn ax_agrees(&self, ax: Option<(String, i32)>) -> bool {
        ax matches Some((title, pid)) && pid == self.pid && (title@.len() == 0 || title@
            == self.title@)
    }

    /// Whether the world service and Accessibility both see the window in front.
    pub fn verify_alignment(
        &self,
        world: Result<Vec<SnapshotWindow>, DriverError>,
        ax: Option<(String, i32)>,
    ) -> (r: Result<bool, Error>)
        ensures
            match world {
                Err(e) if !(e is NotInitialized) => r == Err::<bool, Error>(Error::RpcDriver(e)),
                _ => r == Ok::<bool, Error>(self.world_agrees(world) && self.ax_agrees(ax)),
            },
    {
        let world_ok = match world {
            Ok(windows) => match find_guarded(&windows, self.pid, self.title.as_str()) {
                Some(i) => windows[i].focused && windows[i].on_active_space,
                None => false,
            },
            Err(DriverError::NotInitialized) => true,
            Err(e) => {
                return Err(Error::RpcDriver(e));
            },
        };
        if !world_ok {
            return Ok(false);
        }
        let ax_ok = match ax {
            Some((title, pid)) => pid == self.pid && (title.as_str().unicode_len() == 0 || text_eq(
                title.as_str(),
                self.title.as_str(),
            )),
            None => false,
        };
        Ok(ax_ok)
    }

    /// Take in an attempt: what raising came to, and whether the window is in front.
    /// A reassertion ends when the window is in front or the attempts are used up;
    /// the next one starts with all its attempts and no failure.
    pub fn reassert(&mut self, raised: Result<(), Error>, aligned: Result<bool, Error>) -> (r:
        GuardStep)
        requires
            old(self).attempts < MAX_ATTEMPTS,
        ensures
            final(self).pid == old(self).pid,
            final(self).title == old(self).title,
            final(self).window == old(self).window,
            final(self).raise_deadline_ms == old(self).raise_deadline_ms,
            r is Settled <==> aligned == Ok::<bool, Error>(true),
            r is Again <==> !(aligned == Ok::<bool, Error>(true)) && old(self).attempts + 1
                < MAX_ATTEMPTS,
            final(self).attempts == if r is Again {
                old(self).attempts + 1
            } else {
                0
            },
            !(r is Again) ==> final(self).last_error is None,
            ({
                let failure = match aligned {
                    Err(e) => Some(e),
                    Ok(_) => match raised {
                        Err(e) => Some(e),
                        Ok(_) => old(self).last_error,
                    },
                };
                &&& r is Again ==> final(self).last_error == failure
                &&& r matches GuardStep::GiveUp(e) ==> match failure {
                    Some(last) => e == last,
                    None => is_invalid(e, unsettled_text(old(self).title@, old(self).pid)),
                }
            }),
    {
        let made: u32 = self.attempts + 1;
        if let Err(e) = raised {
            self.last_error = Some(e);
        }
        match aligned {
            Ok(true) => {
                self.attempts = 0;
                self.last_error = None;
                return GuardStep::Settled;
            },
            Ok(false) => {},
            Err(e) => {
                self.last_error = Some(e);
            },
        }
        if made < MAX_ATTEMPTS {
            self.attempts = made;
            return GuardStep::Again;
        }
        self.attempts = 0;
        match self.last_error.take() {
            Some(e) => GuardStep::GiveUp(e),
            None => {
                let mut s = "focus guard: window '".to_owned();
                s.append(self.title.as_str());
                s.append("' (pid ");
                s.append(decimal_signed(self.pid as i64).as_str());
                s.append(") failed to settle");
                GuardStep::GiveUp(Error::InvalidState(s))
            },
        }
    }
}

} // verus!
