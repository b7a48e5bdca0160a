//! Bringing a window into a state in which it can be placed.

use vstd::prelude::*;

use crate::error::Error;
use crate::place::common::{POLL_SLEEP_MS, POLL_TOTAL_MS};
use crate::text::text_eq;

verus! {

/// Why a window of this role and subrole is not placed.
pub open spec fn skip_reason(role: Seq<char>, subrole: Seq<char>) -> Option<Seq<char>> {
    if role == "AXSheet"@ {
        Some("role=AXSheet"@)
    } else if role == "AXPopover"@ || subrole == "AXPopover"@ {
        Some("popover"@)
    } else if subrole == "AXDialog"@ || subrole == "AXSystemDialog"@ {
        Some("dialog"@)
    } else if subrole == "AXFloatingWindow"@ {
        Some("floating"@)
    } else {
        None
    }
}

/// Why a window of this role and subrole is not placed: sheets, popovers,
/// dialogs and floating palettes are left alone.
pub fn skip_reason_for_role_subrole(role: &str, subrole: &str) -> (r: Option<&'static str>)
    ensures
        r is Some <==> skip_reason(role@, subrole@) is Some,
        r matches Some(reason) ==> skip_reason(role@, subrole@) == Some(reason@),
{
    if text_eq(role, "AXSheet") {
        return Some("role=AXSheet");
    }
    if text_eq(role, "AXPopover") || text_eq(subrole, "AXPopover") {
        return Some("popover");
    }
    if text_eq(subrole, "AXDialog") || text_eq(subrole, "AXSystemDialog") {
        return Some("dialog");
    }
    if text_eq(subrole, "AXFloatingWindow") {
        return Some("floating");
    }
    None
}

/// A flag of a window.
#[derive(Debug, Clone, Copy, PartialEq, Eq, Structural)]
pub enum WindowFlag {
    /// The window fills a space of its own.
    FullScreen,
    /// The window is in the Dock.
    Minimized,
    /// The window is zoomed.
    Zoomed,
}

/// The next thing to do to a window.
#[derive(Debug, Clone, Copy, PartialEq, Eq, Structural)]
pub enum NormalizeAction {
    /// Read a flag and report it: nothing when it is missing or unreadable.
    Read(WindowFlag),
    /// Clear a flag; whether that works is found out by reading it.
    Clear(WindowFlag),
    /// Wait for some milliseconds.
    Sleep(u64),
    /// Forget what was known to be settable.
    ForgetSettable,
    /// Raise the window, as far as the window itself can.
    PerformRaise,
    /// Raise the window by its identifier.
    RaiseWindow,
    /// The window can be placed.
    Ready,
    /// The window cannot be placed.
    GiveUp,
}

/// Where a normalization stands: the action that it has asked for last.
#[derive(Debug, Clone, Copy, PartialEq, Eq, Structural)]
pub enum NormalizePhase {
    /// The full screen flag is being read.
    FullScreen,
    /// A flag that can be cleared is being read.
    Check(WindowFlag),
    /// A flag is being cleared.
    Clearing(WindowFlag),
    /// A flag is being read again, after some waiting.
    Polling(WindowFlag, u64),
    /// A pause before a flag is read again.
    Pausing(WindowFlag, u64),
    /// What was known to be settable is being forgotten.
    Forgetting,
    /// The window is being raised.
    Raising,
    /// The window is being raised by its identifier.
    RaisingById,
    /// Nothing is left to do.
    Over,
}

/// The normalization of one window.
#[derive(Debug, Clone, Copy, PartialEq, Eq, Structural)]
pub struct Normalizer {
    /// Whether the window's identifier is known.
    pub by_id: bool,
    /// What is being done.
    pub phase: NormalizePhase,
    /// Whether a flag was cleared.
    pub changed: bool,
}

/// What follows once a flag has been dealt with.
pub open spec fn after_flag(n: Normalizer, flag: WindowFlag) -> (Normalizer, NormalizeAction) {
    if flag is Minimized {
        (
            Normalizer { phase: NormalizePhase::Check(WindowFlag::Zoomed), ..n },
            NormalizeAction::Read(WindowFlag::Zoomed),
        )
    } else if n.changed {
        (
            Normalizer { phase: NormalizePhase::Forgetting, ..n },
            NormalizeAction::ForgetSettable,
        )
    } else {
        (Normalizer { phase: NormalizePhase::Raising, ..n }, NormalizeAction::PerformRaise)
    }
}

/// The next phase and action, given the flag that was read last.
pub open spec fn normalized(n: Normalizer, flag_read: Option<bool>) -> (
    Normalizer,
    NormalizeAction,
) {
    match n.phase {
        NormalizePhase::FullScreen => if flag_read == Some(true) {
            (Normalizer { phase: NormalizePhase::Over, ..n }, NormalizeAction::GiveUp)
        } else {
            (
                Normalizer { phase: NormalizePhase::Check(WindowFlag::Minimized), ..n },
                NormalizeAction::Read(WindowFlag::Minimized),
            )
        },
        NormalizePhase::Check(flag) => if flag_read == Some(true) {
            (
                Normalizer { phase: NormalizePhase::Clearing(flag), ..n },
                NormalizeAction::Clear(flag),
            )
        } else {
            after_flag(n, flag)
        },
        NormalizePhase::Clearing(flag) => (
            Normalizer { phase: NormalizePhase::Polling(flag, 0), changed: true, ..n },
            NormalizeAction::Read(flag),
        ),
        NormalizePhase::Polling(flag, waited) => if flag_read == Some(false) {
            after_flag(n, flag)
        } else {
            (
                Normalizer { phase: NormalizePhase::Pausing(flag, waited), ..n },
                NormalizeAction::Sleep(POLL_SLEEP_MS),
            )
        },
        NormalizePhase::Pausing(flag, waited) => if waited + POLL_SLEEP_MS <= POLL_TOTAL_MS {
            (
                Normalizer {
                    phase: NormalizePhase::Polling(flag, (waited + POLL_SLEEP_MS) as u64),
                    ..n
                },
                NormalizeAction::Read(flag),
            )
        } else {
            after_flag(n, flag)
        },
        NormalizePhase::Forgetting => (
            Normalizer { phase: NormalizePhase::Raising, ..n },
            NormalizeAction::PerformRaise,
        ),
        NormalizePhase::Raising => if n.by_id {
            (Normalizer { phase: NormalizePhase::RaisingById, ..n }, NormalizeAction::RaiseWindow)
        } else {
            (Normalizer { phase: NormalizePhase::Over, ..n }, NormalizeAction::Ready)
        },
        NormalizePhase::RaisingById => (
            Normalizer { phase: NormalizePhase::Over, ..n },
            NormalizeAction::Ready,
        ),
        NormalizePhase::Over => (n, NormalizeAction::Ready),
    }
}

impl Normalizer {
    /// Begin with a window: the full screen flag is read first.
    pub fn normalize_before_move(by_id: bool) -> (r: (Self, NormalizeAction))
        ensures
            r.0 == (Normalizer { by_id, phase: NormalizePhase::FullScreen, changed: false }),
            r.1 == NormalizeAction::Read(WindowFlag::FullScreen),
    {
        (
            Normalizer { by_id, phase: NormalizePhase::FullScreen, changed: false },
            NormalizeAction::Read(WindowFlag::FullScreen),
        )
    }

    fn after_flag(&mut self, flag: WindowFlag) -> (r: NormalizeAction)
        ensures
            (*final(self), r) == after_flag(*old(self), flag),
    {
        if matches!(flag, WindowFlag::Minimized) {
            self.phase = NormalizePhase::Check(WindowFlag::Zoomed);
            NormalizeAction::Read(WindowFlag::Zoomed)
        } else if self.changed {
            self.phase = NormalizePhase::Forgetting;
            NormalizeAction::ForgetSettable
        } else {
            self.phase = NormalizePhase::Raising;
            NormalizeAction::PerformRaise
        }
    }

    /// The next action, once the last one is done. `flag_read` is the flag, if
    /// the last action was to read one.
    pub fn next(&mut self, flag_read: Option<bool>) -> (r: NormalizeAction)
        ensures
            (*final(self), r) == normalized(*old(self), flag_read),
    {
        match self.phase {
            NormalizePhase::FullScreen => {
                if flag_read == Some(true) {
                    self.phase = NormalizePhase::Over;
                    NormalizeAction::GiveUp
                } else {
                    self.phase = NormalizePhase::Check(WindowFlag::Minimized);
                    NormalizeAction::Read(WindowFlag::Minimized)
                }
            },
            NormalizePhase::Check(flag) => {
                if flag_read == Some(true) {
                    self.phase = NormalizePhase::Clearing(flag);
                    NormalizeAction::Clear(flag)
                } else {
                    self.after_flag(flag)
                }
            },
            NormalizePhase::Clearing(flag) => {
                self.phase = NormalizePhase::Polling(flag, 0);
                self.changed = true;
                NormalizeAction::Read(flag)
            },
            NormalizePhase::Polling(flag, waited) => {
                if flag_read == Some(false) {
                    self.after_flag(flag)
                } else {
                    self.phase = NormalizePhase::Pausing(flag, waited);
                    NormalizeAction::Sleep(POLL_SLEEP_MS)
                }
            },
            NormalizePhase::Pausing(flag, waited) => {
                if waited <= POLL_TOTAL_MS - POLL_SLEEP_MS {
                    self.phase = NormalizePhase::Polling(flag, waited + POLL_SLEEP_MS);
                    NormalizeAction::Read(flag)
                } else {
                    self.after_flag(flag)
                }
            },
            NormalizePhase::Forgetting => {
                self.phase = NormalizePhase::Raising;
                NormalizeAction::PerformRaise
            },
            NormalizePhase::Raising => {
                if self.by_id {
                    self.phase = NormalizePhase::RaisingById;
                    NormalizeAction::RaiseWindow
                } else {
                    self.phase = NormalizePhase::Over;
                    NormalizeAction::Ready
                }
            },
            NormalizePhase::RaisingById => {
                self.phase = NormalizePhase::Over;
                NormalizeAction::Ready
            },
            NormalizePhase::Over => NormalizeAction::Ready,
        }
    }
}

/// The error with which a normalization ends.
pub fn normalize_result(last: NormalizeAction) -> (r: Result<(), Error>)
    ensures
        last is GiveUp <==> r == Err::<(), Error>(Error::FullscreenActive),
        !(last is GiveUp) <==> r == Ok::<(), Error>(()),
{
    match last {
        NormalizeAction::GiveUp => Err(Error::FullscreenActive),
        _ => Ok(()),
    }
}

/// A normalization after a series of answers, with the action asked for last.
pub open spec fn normalized_after(by_id: bool, answers: Seq<Option<bool>>) -> (
    Normalizer,
    NormalizeAction,
)
    decreases answers.len(),
{
    if answers.len() == 0 {
        (
            Normalizer { by_id, phase: NormalizePhase::FullScreen, changed: false },
            NormalizeAction::Read(WindowFlag::FullScreen),
        )
    } else {
        normalized(normalized_after(by_id, answers.drop_last()).0, answers.last())
    }
}

/// How many more answers a normalization takes at most.
spec fn steps_left(n: Normalizer) -> int {
    let tail: int = 4;
    let flag_all: int = 37;
    match n.phase {
        NormalizePhase::FullScreen => tail + 2 * flag_all + 2,
        NormalizePhase::Check(flag) => (if flag is Minimized {
            flag_all
        } else {
            0
        }) + flag_all + tail,
        NormalizePhase::Clearing(flag) => (if flag is Minimized {
            flag_all
        } else {
            0
        }) + flag_all - 1 + tail,
        NormalizePhase::Polling(flag, waited) => (if flag is Minimized {
            flag_all
        } else {
            0
        }) + 2 * ((POLL_TOTAL_MS - waited) / POLL_SLEEP_MS as int) + 2 + tail,
        NormalizePhase::Pausing(flag, waited) => (if flag is Minimized {
            flag_all
        } else {
            0
        }) + 2 * ((POLL_TOTAL_MS - waited) / POLL_SLEEP_MS as int) + 1 + tail,
        NormalizePhase::Forgetting => 3,
        NormalizePhase::Raising => 2,
        NormalizePhase::RaisingById => 1,
        NormalizePhase::Over => 0,
    }
}

spec fn on_schedule(n: Normalizer) -> bool {
    match n.phase {
        NormalizePhase::Check(flag) | NormalizePhase::Clearing(flag) => !(flag is FullScreen),
        NormalizePhase::Polling(flag, waited) | NormalizePhase::Pausing(flag, waited) => waited
            <= POLL_TOTAL_MS && !(flag is FullScreen) && n.changed,
        _ => true,
    }
}

proof fn stays_on_schedule(by_id: bool, answers: Seq<Option<bool>>)
    ensures
        ({
            let n = normalized_after(by_id, answers).0;
            &&& on_schedule(n)
            &&& n.by_id == by_id
            &&& 0 <= steps_left(n)
            &&& n.phase is Over || answers.len() + steps_left(n) <= 80
        }),
    decreases answers.len(),
{
    if answers.len() > 0 {
        stays_on_schedule(by_id, answers.drop_last());
    }
}

/// Normalization comes to an end within eighty actions, however the window
/// answers.
pub proof fn normalization_ends(by_id: bool, answers: Seq<Option<bool>>)
    requires
        answers.len() >= 80,
    ensures
        normalized_after(by_id, answers).0.phase is Over,
{
    stays_on_schedule(by_id, answers);
}

/// A window that reports full screen is given up at once; any other is asked
/// whether it is minimized.
pub proof fn fullscreen_is_given_up_at_once(by_id: bool, answer: Option<bool>)
    ensures
        answer == Some(true) <==> normalized_after(by_id, seq![answer]).1 is GiveUp,
        answer != Some(true) ==> normalized_after(by_id, seq![answer]).1
            == NormalizeAction::Read(WindowFlag::Minimized),
{
    reveal_with_fuel(normalized_after, 2);
    assert(seq![answer].drop_last() =~= Seq::empty());
}

/// What was known to be settable is forgotten exactly when a flag was cleared.
pub proof fn settable_is_forgotten_after_a_change(n: Normalizer, flag_read: Option<bool>)
    requires
        !(n.phase is Forgetting),
        !(n.phase is Raising),
        normalized(n, flag_read).1 == NormalizeAction::PerformRaise || normalized(n, flag_read).1
            == NormalizeAction::ForgetSettable,
    ensures
        normalized(n, flag_read).1 == NormalizeAction::ForgetSettable <==> n.changed,
{
}

/// The next thing to do about a window that has not surfaced yet.
#[derive(Debug)]
pub enum LookupStep<T> {
    /// The search is over.
    Finished(Result<T, Error>),
    /// Search again after some milliseconds.
    Retry {
        /// Searches repeated so far.
        attempts: usize,
        /// Milliseconds to wait.
        delay_ms: u64,
    },
}

/// How often a search for a window is repeated.
pub const AX_WINDOW_RETRIES: usize = 40;

/// Pause before a search is repeated.
pub const AX_WINDOW_RETRY_DELAY_MS: u64 = 20;

/// Take in the result of a search for a window: one that has not surfaced is
/// searched for again, a limited number of times.
pub fn ax_window_for_id_with_retry<T>(attempts: usize, result: Result<T, Error>) -> (r: LookupStep<T>)
    ensures
        result == Err::<T, Error>(Error::FocusedWindow) && attempts < AX_WINDOW_RETRIES ==> r
            == (LookupStep::<T>::Retry {
            attempts: (attempts + 1) as usize,
            delay_ms: AX_WINDOW_RETRY_DELAY_MS,
        }),
        !(result == Err::<T, Error>(Error::FocusedWindow) && attempts < AX_WINDOW_RETRIES) ==> r
            == LookupStep::Finished(result),
{
    match result {
        Err(Error::FocusedWindow) => {
            if attempts < AX_WINDOW_RETRIES {
                LookupStep::Retry { attempts: attempts + 1, delay_ms: AX_WINDOW_RETRY_DELAY_MS }
            } else {
                LookupStep::Finished(Err(Error::FocusedWindow))
            }
        },
        other => LookupStep::Finished(other),
    }
}

} // verus!
