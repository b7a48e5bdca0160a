//! Counters of placement attempts, by kind.

use vstd::prelude::*;

use crate::place::common::AttemptRecord;

verus! {

/// What a placement attempt did.
#[derive(Debug, Clone, Copy, PartialEq, Eq, Structural)]
pub enum AttemptKind {
    /// First attempt, in the order that the settable attributes suggest.
    Primary,
    /// Nudge of the one axis that is out of place.
    AxisNudge,
    /// Second attempt, in the opposite order.
    RetryOpposite,
    /// Change of the size alone, after the position has latched.
    SizeOnly,
    /// Legal size put back onto the grid after a change of size.
    AnchorSizeOnly,
    /// Legal size put back onto the grid.
    AnchorLegal,
    /// Shrink, move and grow.
    FallbackShrinkMoveGrow,
}

/// The order in which an attempt set position and size.
#[derive(Debug, Clone, Copy, PartialEq, Eq, Structural)]
pub enum AttemptOrder {
    /// Position first.
    PosThenSize,
    /// Size first.
    SizeThenPos,
    /// Horizontal position alone.
    AxisHorizontal,
    /// Vertical position alone.
    AxisVertical,
    /// Size alone.
    SizeOnly,
    /// Anchored to the grid cell.
    Anchor,
    /// Shrink, move and grow.
    Fallback,
}

/// Statistics of one kind of attempt. Sums wrap around.
#[derive(Debug, Clone, Copy, PartialEq, Eq, Structural)]
pub struct AttemptSnapshot {
    /// Attempts made.
    pub attempts: u64,
    /// Attempts that verified.
    pub verified: u64,
    /// Milliseconds spent settling.
    pub settle_ms_total: u64,
}

/// Statistics of every kind of attempt, of safe parks and of failures.
#[derive(Debug, Clone, Copy, PartialEq, Eq, Structural)]
pub struct PlacementCountersSnapshot {
    /// First attempts.
    pub primary: AttemptSnapshot,
    /// Axis nudges.
    pub axis_nudge: AttemptSnapshot,
    /// Retries in the opposite order.
    pub retry_opposite: AttemptSnapshot,
    /// Changes of the size alone.
    pub size_only: AttemptSnapshot,
    /// Anchors after a change of size.
    pub anchor_size_only: AttemptSnapshot,
    /// Anchors of the legal size.
    pub anchor_legal: AttemptSnapshot,
    /// Shrink, move and grow runs.
    pub fallback_smg: AttemptSnapshot,
    /// Windows parked before a placement.
    pub safe_park: u64,
    /// Placements that did not verify.
    pub failures: u64,
}

/// A sum that wraps around at the end of the counter's range.
pub open spec fn wrapped_sum(a: u64, b: u64) -> u64 {
    if a + b > u64::MAX {
        (a + b - u64::MAX - 1) as u64
    } else {
        (a + b) as u64
    }
}

impl AttemptSnapshot {
    /// All counters at zero.
    pub open spec fn zero() -> AttemptSnapshot {
        AttemptSnapshot { attempts: 0, verified: 0, settle_ms_total: 0 }
    }

    /// The statistics after one more attempt.
    pub open spec fn counted(self, settle_ms: u64, verified: bool) -> AttemptSnapshot {
        AttemptSnapshot {
            attempts: wrapped_sum(self.attempts, 1),
            verified: if verified {
                wrapped_sum(self.verified, 1)
            } else {
                self.verified
            },
            settle_ms_total: wrapped_sum(self.settle_ms_total, settle_ms),
        }
    }
}

impl PlacementCountersSnapshot {
    /// All counters at zero.
    pub open spec fn zero() -> PlacementCountersSnapshot {
        PlacementCountersSnapshot {
            primary: AttemptSnapshot::zero(),
            axis_nudge: AttemptSnapshot::zero(),
            retry_opposite: AttemptSnapshot::zero(),
            size_only: AttemptSnapshot::zero(),
            anchor_size_only: AttemptSnapshot::zero(),
            anchor_legal: AttemptSnapshot::zero(),
            fallback_smg: AttemptSnapshot::zero(),
            safe_park: 0,
            failures: 0,
        }
    }

    /// The statistics of one kind.
    pub open spec fn of(self, kind: AttemptKind) -> AttemptSnapshot {
        match kind {
            AttemptKind::Primary => self.primary,
            AttemptKind::AxisNudge => self.axis_nudge,
            AttemptKind::RetryOpposite => self.retry_opposite,
            AttemptKind::SizeOnly => self.size_only,
            AttemptKind::AnchorSizeOnly => self.anchor_size_only,
            AttemptKind::AnchorLegal => self.anchor_legal,
            AttemptKind::FallbackShrinkMoveGrow => self.fallback_smg,
        }
    }

    /// The statistics after one more attempt: only its own kind changes.
    pub open spec fn counted(self, kind: AttemptKind, settle_ms: u64, verified: bool) -> Self {
        let now = self.of(kind).counted(settle_ms, verified);
        match kind {
            AttemptKind::Primary => PlacementCountersSnapshot { primary: now, ..self },
            AttemptKind::AxisNudge => PlacementCountersSnapshot { axis_nudge: now, ..self },
            AttemptKind::RetryOpposite => PlacementCountersSnapshot { retry_opposite: now, ..self },
            AttemptKind::SizeOnly => PlacementCountersSnapshot { size_only: now, ..self },
            AttemptKind::AnchorSizeOnly => PlacementCountersSnapshot {
                anchor_size_only: now,
                ..self
            },
            AttemptKind::AnchorLegal => PlacementCountersSnapshot { anchor_legal: now, ..self },
            AttemptKind::FallbackShrinkMoveGrow => PlacementCountersSnapshot {
                fallback_smg: now,
                ..self
            },
        }
    }

    /// The statistics after one more failure.
    pub open spec fn failed(self) -> Self {
        PlacementCountersSnapshot { failures: wrapped_sum(self.failures, 1), ..self }
    }

    /// The statistics after one more safe park.
    pub open spec fn parked(self) -> Self {
        PlacementCountersSnapshot { safe_park: wrapped_sum(self.safe_park, 1), ..self }
    }

    /// The statistics after a series of attempts.
    pub open spec fn tallied(self, attempts: Seq<AttemptRecord>) -> Self
        decreases attempts.len(),
    {
        if attempts.len() == 0 {
            self
        } else {
            let last = attempts.last();
            self.tallied(attempts.drop_last()).counted(last.kind, last.settle_ms, last.verified)
        }
    }
}

/// The sum that wraps around at the end of the counter's range.
fn wrap_sum(a: u64, b: u64) -> (r: u64)
    ensures
        r == wrapped_sum(a, b),
{
    a.wrapping_add(b)
}

/// Running statistics of one kind of attempt.
#[derive(Debug)]
pub struct AttemptCounters {
    counts: AttemptSnapshot,
}

impl View for AttemptCounters {
    type V = AttemptSnapshot;

    closed spec fn view(&self) -> AttemptSnapshot {
        self.counts
    }
}

impl AttemptCounters {
    /// Counters at zero.
    pub fn new() -> (r: Self)
        ensures
            r@ == AttemptSnapshot::zero(),
    {
        AttemptCounters { counts: AttemptSnapshot { attempts: 0, verified: 0, settle_ms_total: 0 } }
    }

    /// Count one attempt.
    pub fn record(&mut self, settle_ms: u64, verified: bool)
        ensures
            final(self)@ == old(self)@.counted(settle_ms, verified),
    {
        let seen = self.counts;
        self.counts = AttemptSnapshot {
            attempts: wrap_sum(seen.attempts, 1),
            verified: if verified {
                wrap_sum(seen.verified, 1)
            } else {
                seen.verified
            },
            settle_ms_total: wrap_sum(seen.settle_ms_total, settle_ms),
        };
    }

    /// The statistics so far.
    pub fn snapshot(&self) -> (r: AttemptSnapshot)
        ensures
            r == self@,
    {
        self.counts
    }

    /// Start again from zero.
    pub fn reset(&mut self)
        ensures
            final(self)@ == AttemptSnapshot::zero(),
    {
        self.counts = AttemptSnapshot { attempts: 0, verified: 0, settle_ms_total: 0 };
    }
}

/// Running statistics of placement.
#[derive(Debug)]
pub struct PlacementCounters {
    primary: AttemptCounters,
    axis_nudge: AttemptCounters,
    retry_opposite: AttemptCounters,
    size_only: AttemptCounters,
    anchor_size_only: AttemptCounters,
    anchor_legal: AttemptCounters,
    fallback_smg: AttemptCounters,
    safe_park: u64,
    failures: u64,
}

impl View for PlacementCounters {
    type V = PlacementCountersSnapshot;

    closed spec fn view(&self) -> PlacementCountersSnapshot {
        PlacementCountersSnapshot {
            primary: self.primary@,
            axis_nudge: self.axis_nudge@,
            retry_opposite: self.retry_opposite@,
            size_only: self.size_only@,
            anchor_size_only: self.anchor_size_only@,
            anchor_legal: self.anchor_legal@,
            fallback_smg: self.fallback_smg@,
            safe_park: self.safe_park,
            failures: self.failures,
        }
    }
}

impl PlacementCounters {
    /// Counters at zero.
    pub fn new() -> (r: Self)
        ensures
            r@ == PlacementCountersSnapshot::zero(),
    {
        PlacementCounters {
            primary: AttemptCounters::new(),
            axis_nudge: AttemptCounters::new(),
            retry_opposite: AttemptCounters::new(),
            size_only: AttemptCounters::new(),
            anchor_size_only: AttemptCounters::new(),
            anchor_legal: AttemptCounters::new(),
            fallback_smg: AttemptCounters::new(),
            safe_park: 0,
            failures: 0,
        }
    }

    /// Count one attempt under its kind.
    pub fn record_attempt(&mut self, kind: AttemptKind, settle_ms: u64, verified: bool)
        ensures
            final(self)@ == old(self)@.counted(kind, settle_ms, verified),
    {
        match kind {
            AttemptKind::Primary => self.primary.record(settle_ms, verified),
            AttemptKind::AxisNudge => self.axis_nudge.record(settle_ms, verified),
            AttemptKind::RetryOpposite => self.retry_opposite.record(settle_ms, verified),
            AttemptKind::SizeOnly => self.size_only.record(settle_ms, verified),
            AttemptKind::AnchorSizeOnly => self.anchor_size_only.record(settle_ms, verified),
            AttemptKind::AnchorLegal => self.anchor_legal.record(settle_ms, verified),
            AttemptKind::FallbackShrinkMoveGrow => self.fallback_smg.record(settle_ms, verified),
        }
    }

    /// Count one safe park.
    pub fn record_safe_park(&mut self)
        ensures
            final(self)@ == old(self)@.parked(),
    {
        self.safe_park = wrap_sum(self.safe_park, 1);
    }

    /// Count one placement that did not verify.
    pub fn record_failure(&mut self)
        ensures
            final(self)@ == old(self)@.failed(),
    {
        self.failures = wrap_sum(self.failures, 1);
    }

    /// The statistics so far.
    pub fn snapshot(&self) -> (r: PlacementCountersSnapshot)
        ensures
            r == self@,
    {
        PlacementCountersSnapshot {
            primary: self.primary.snapshot(),
            axis_nudge: self.axis_nudge.snapshot(),
            retry_opposite: self.retry_opposite.snapshot(),
            size_only: self.size_only.snapshot(),
            anchor_size_only: self.anchor_size_only.snapshot(),
            anchor_legal: self.anchor_legal.snapshot(),
            fallback_smg: self.fallback_smg.snapshot(),
            safe_park: self.safe_park,
            failures: self.failures,
        }
    }

    /// Start again from zero.
    pub fn reset(&mut self)
        ensures
            final(self)@ == PlacementCountersSnapshot::zero(),
    {
        self.primary.reset();
        self.axis_nudge.reset();
        self.retry_opposite.reset();
        self.size_only.reset();
        self.anchor_size_only.reset();
        self.anchor_legal.reset();
        self.fallback_smg.reset();
        self.safe_park = 0;
        self.failures = 0;
    }
}

/// A copy of the counters.
pub fn placement_counters_snapshot(counters: &PlacementCounters) -> (r: PlacementCountersSnapshot)
    ensures
        r == counters@,
{
    counters.snapshot()
}

/// Set every counter back to zero.
pub fn placement_counters_reset(counters: &mut PlacementCounters)
    ensures
        final(counters)@ == PlacementCountersSnapshot::zero(),
{
    counters.reset();
}

/// An attempt is counted under its own kind and changes no other kind.
pub proof fn counted_touches_only_its_kind(
    counters: PlacementCountersSnapshot,
    kind: AttemptKind,
    other: AttemptKind,
    settle_ms: u64,
    verified: bool,
)
    ensures
        counters.counted(kind, settle_ms, verified).of(kind) == counters.of(kind).counted(
            settle_ms,
            verified,
        ),
        other != kind ==> counters.counted(kind, settle_ms, verified).of(other) == counters.of(
            other,
        ),
        counters.counted(kind, settle_ms, verified).safe_park == counters.safe_park,
        counters.counted(kind, settle_ms, verified).failures == counters.failures,
{
}

} // verus!
