//! Deadlines and pacing shared by the smoketests.
//!
//! Instants are monotonic clock readings in nanoseconds; the caller reads the
//! clock.

use vstd::prelude::*;

use crate::geom::min_int;

verus! {

/// Default wall-clock budget for one case, in milliseconds.
pub const DEFAULT_RUN_BUDGET_MS: u64 = 10_000;

/// Nanoseconds per millisecond.
pub const NANOS_PER_MS: u64 = 1_000_000;

/// The least number of milliseconds that hold some nanoseconds.
pub open spec fn whole_ms(nanos: int) -> int {
    (nanos + NANOS_PER_MS - 1) / NANOS_PER_MS as int
}

/// One deadline shared by a case, its waits and its watchdog.
#[derive(Debug, Clone, Copy, PartialEq, Eq, Structural)]
pub struct RunBudget {
    started_at: u64,
    deadline: u128,
    total_ms: u64,
}

impl RunBudget {
    /// When accounting began.
    pub closed spec fn start(self) -> int {
        self.started_at as int
    }

    /// When the run must stop.
    pub closed spec fn end(self) -> int {
        self.deadline as int
    }

    /// The configured allowance.
    pub closed spec fn allowance(self) -> u64 {
        self.total_ms
    }

    /// Start a budget at `now` with the given allowance.
    pub fn new(total_ms: u64, now: u64) -> (r: Self)
        ensures
            r.start() == now,
            r.end() == now + total_ms * NANOS_PER_MS,
            r.allowance() == total_ms,
    {
        let span: u128 = ms(total_ms);
        RunBudget { started_at: now, deadline: now as u128 + span, total_ms }
    }

    /// The configured allowance in milliseconds.
    pub fn total_ms(self) -> (r: u64)
        ensures
            r == self.allowance(),
    {
        self.total_ms
    }

    /// Nanoseconds since accounting began.
    pub fn elapsed(self, now: u64) -> (r: u64)
        ensures
            r == if now >= self.start() {
                now - self.start()
            } else {
                0
            },
    {
        if now >= self.started_at {
            now - self.started_at
        } else {
            0
        }
    }

    /// Nanoseconds that remain, or `None` when the deadline has been reached.
    pub fn remaining(self, now: u64) -> (r: Option<u128>)
        ensures
            match r {
                Some(left) => now < self.end() && left == self.end() - now,
                None => now >= self.end(),
            },
    {
        if (now as u128) < self.deadline {
            Some(self.deadline - now as u128)
        } else {
            None
        }
    }

    /// Milliseconds that remain, rounded up so that less than one stays usable;
    /// `None` when nothing remains.
    pub fn remaining_ms(self, now: u64) -> (r: Option<u64>)
        ensures
            match r {
                Some(left) => {
                    &&& now < self.end()
                    &&& left == min_int(whole_ms(self.end() - now), u64::MAX as int)
                },
                None => now >= self.end(),
            },
    {
        match self.remaining(now) {
            Some(left) => {
                let unit: u128 = NANOS_PER_MS as u128;
                let whole: u128 = (left - 1) / unit + 1;
                if whole <= u64::MAX as u128 {
                    Some(whole as u64)
                } else {
                    Some(u64::MAX)
                }
            },
            None => None,
        }
    }

    /// Whether the deadline has been reached.
    pub fn is_expired(self, now: u64) -> (r: bool)
        ensures
            r <==> now >= self.end(),
    {
        now as u128 >= self.deadline
    }
}

/// Pacing of input events.
#[derive(Debug, Clone, Copy, PartialEq, Eq, Structural)]
pub struct InputDelays {
    /// Polling interval in milliseconds.
    pub poll_interval_ms: u64,
    /// Delay between retries in milliseconds.
    pub retry_delay_ms: u64,
}

/// Default polling interval in milliseconds.
pub const POLL_INTERVAL_MS: u64 = 5;

/// Default delay between retries in milliseconds.
pub const RETRY_DELAY_MS: u64 = 30;

impl Default for InputDelays {
    fn default() -> (r: Self)
        ensures
            r == (InputDelays {
                poll_interval_ms: POLL_INTERVAL_MS,
                retry_delay_ms: RETRY_DELAY_MS,
            }),
    {
        InputDelays { poll_interval_ms: POLL_INTERVAL_MS, retry_delay_ms: RETRY_DELAY_MS }
    }
}

/// Pacing of connection retries.
#[derive(Debug, Clone, Copy, PartialEq, Eq, Structural)]
pub struct Retry {
    /// Delay after a failed attempt in milliseconds.
    pub fast_delay_ms: u64,
}

/// Default delay after a failed connection attempt in milliseconds.
pub const FAST_DELAY_MS: u64 = 50;

impl Default for Retry {
    fn default() -> (r: Self)
        ensures
            r == (Retry { fast_delay_ms: FAST_DELAY_MS }),
    {
        Retry { fast_delay_ms: FAST_DELAY_MS }
    }
}

/// Tuning of the overlay that asks for hands off.
#[derive(Debug, Clone, Copy, PartialEq, Eq, Structural)]
pub struct WarnOverlayConfig {
    /// Pause in milliseconds between the overlay and the first case.
    pub initial_delay_ms: u64,
    /// Width of the overlay in points.
    pub width_px: u32,
    /// Height of the overlay in points.
    pub height_px: u32,
}

impl Default for WarnOverlayConfig {
    fn default() -> (r: Self)
        ensures
            r == (WarnOverlayConfig { initial_delay_ms: 0, width_px: 520, height_px: 140 }),
    {
        WarnOverlayConfig { initial_delay_ms: 0, width_px: 520, height_px: 140 }
    }
}

/// Milliseconds as nanoseconds.
pub fn ms(millis: u64) -> (r: u128)
    ensures
        r == millis * NANOS_PER_MS,
{
    assert(millis * NANOS_PER_MS <= u64::MAX * NANOS_PER_MS) by (nonlinear_arith)
        requires
            millis <= u64::MAX,
    ;
    millis as u128 * NANOS_PER_MS as u128
}

/// Milliseconds before a deadline; `None` when less than one remains.
pub fn remaining_ms(deadline: u128, now: u64) -> (r: Option<u64>)
    ensures
        match r {
            Some(left) => {
                &&& deadline >= now + NANOS_PER_MS
                &&& left == if (deadline - now) / NANOS_PER_MS as int <= u64::MAX {
                    (deadline - now) / NANOS_PER_MS as int
                } else {
                    u64::MAX as int
                }
            },
            None => deadline < now + NANOS_PER_MS,
        },
{
    if deadline < now as u128 {
        return None;
    }
    let whole: u128 = (deadline - now as u128) / NANOS_PER_MS as u128;
    if whole == 0 {
        None
    } else if whole <= u64::MAX as u128 {
        Some(whole as u64)
    } else {
        Some(u64::MAX)
    }
}

/// A budget has expired exactly when no milliseconds remain.
pub proof fn expired_iff_nothing_remains(budget: RunBudget, now: u64, left: Option<u64>, expired: bool)
    requires
        call_ensures(RunBudget::remaining_ms, (budget, now), left),
        call_ensures(RunBudget::is_expired, (budget, now), expired),
    ensures
        expired <==> left is None,
{
}

/// A budget has time left until it expires and none afterwards, and never more
/// than its allowance.
pub proof fn time_remains_until_expiry(
    budget: RunBudget,
    total_ms: u64,
    started: u64,
    now: u64,
    left: Option<u128>,
    expired: bool,
)
    requires
        call_ensures(RunBudget::new, (total_ms, started), budget),
        call_ensures(RunBudget::remaining, (budget, now), left),
        call_ensures(RunBudget::is_expired, (budget, now), expired),
        now >= started,
    ensures
        expired <==> left is None,
        left matches Some(n) ==> 0 < n <= total_ms * NANOS_PER_MS,
{
}

/// The milliseconds that remain hold all that remains, and no whole one more.
pub proof fn remaining_time_is_rounded_up(budget: RunBudget, now: u64, left: Option<u64>)
    requires
        call_ensures(RunBudget::remaining_ms, (budget, now), left),
        now < budget.end() <= now + u64::MAX * NANOS_PER_MS,
    ensures
        left is Some,
        (left->0 - 1) * NANOS_PER_MS < budget.end() - now <= left->0 * NANOS_PER_MS,
{
}

} // verus!
