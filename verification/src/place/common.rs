//! Timing, limits, options and records shared by every placement.

use vstd::prelude::*;
use vstd::string::*;

use crate::geom::{approx_eq, near, Rect};
use crate::place::adapter::AxElem;
use crate::place::metrics::{AttemptKind, AttemptOrder};
use crate::screen::ScreenLayout;
use crate::text::{bool_text, bool_word, dec, decimal};

verus! {

/// Tolerance, in coordinate units, within which a placement counts as verified.
pub const VERIFY_EPS: i64 = 2048;

/// Pause between two polls of a window's state.
pub const POLL_SLEEP_MS: u64 = 25;

/// Longest time spent polling a window's state.
pub const POLL_TOTAL_MS: u64 = 400;

/// Pauses of the setters and of the settle polls.
#[derive(Debug, Clone, Copy, PartialEq, Eq, Structural)]
pub struct SettleTiming {
    /// Pause between setting position and size.
    pub apply_stutter_ms: u64,
    /// Pause between two settle polls.
    pub settle_sleep_ms: u64,
    /// Longest time spent polling for the window to settle.
    pub settle_total_ms: u64,
}

impl SettleTiming {
    /// Timing from its three parts.
    pub fn new(apply_stutter_ms: u64, settle_sleep_ms: u64, settle_total_ms: u64) -> (r: Self)
        ensures
            r == (SettleTiming { apply_stutter_ms, settle_sleep_ms, settle_total_ms }),
    {
        SettleTiming { apply_stutter_ms, settle_sleep_ms, settle_total_ms }
    }
}

impl Default for SettleTiming {
    fn default() -> (r: Self)
        ensures
            r == (SettleTiming { apply_stutter_ms: 2, settle_sleep_ms: 20, settle_total_ms: 600 }),
    {
        SettleTiming::new(2, 20, 600)
    }
}

/// How often each stage of a placement may run.
#[derive(Debug, Clone, Copy, PartialEq, Eq, Structural)]
pub struct RetryLimits {
    /// Axis nudges.
    pub max_axis_nudges: u32,
    /// Retries in the opposite order.
    pub max_opposite_order: u32,
    /// Anchors of the legal size.
    pub max_anchor_attempts: u32,
    /// Shrink, move and grow runs.
    pub max_fallback_runs: u32,
}

impl RetryLimits {
    /// Limits from their four parts.
    pub fn new(
        max_axis_nudges: u32,
        max_opposite_order: u32,
        max_anchor_attempts: u32,
        max_fallback_runs: u32,
    ) -> (r: Self)
        ensures
            r == (RetryLimits {
                max_axis_nudges,
                max_opposite_order,
                max_anchor_attempts,
                max_fallback_runs,
            }),
    {
        RetryLimits { max_axis_nudges, max_opposite_order, max_anchor_attempts, max_fallback_runs }
    }
}

impl Default for RetryLimits {
    fn default() -> (r: Self)
        ensures
            r == (RetryLimits {
                max_axis_nudges: 1,
                max_opposite_order: 1,
                max_anchor_attempts: 2,
                max_fallback_runs: 1,
            }),
    {
        RetryLimits::new(1, 1, 2, 1)
    }
}

/// Tolerance and timing of every attempt of a placement.
#[derive(Debug, Clone, Copy, PartialEq, Eq, Structural)]
pub struct PlacementTuning {
    /// Tolerance, in coordinate units.
    pub epsilon: i64,
    /// Pauses of the setters and of the settle polls.
    pub settle_timing: SettleTiming,
}

impl PlacementTuning {
    /// Tuning from its two parts.
    pub fn new(epsilon: i64, settle_timing: SettleTiming) -> (r: Self)
        ensures
            r == (PlacementTuning { epsilon, settle_timing }),
    {
        PlacementTuning { epsilon, settle_timing }
    }

    /// The same tuning with another tolerance.
    pub fn with_epsilon(self, epsilon: i64) -> (r: Self)
        ensures
            r == (PlacementTuning { epsilon, ..self }),
    {
        PlacementTuning { epsilon, settle_timing: self.settle_timing }
    }

    /// The same tuning with other pauses.
    pub fn with_settle_timing(self, timing: SettleTiming) -> (r: Self)
        ensures
            r == (PlacementTuning { settle_timing: timing, ..self }),
    {
        PlacementTuning { epsilon: self.epsilon, settle_timing: timing }
    }

    /// The tolerance, in coordinate units.
    pub fn epsilon(&self) -> (r: i64)
        ensures
            r == self.epsilon,
    {
        self.epsilon
    }

    /// The pauses of the setters and of the settle polls.
    pub fn settle_timing(&self) -> (r: SettleTiming)
        ensures
            r == self.settle_timing,
    {
        self.settle_timing
    }
}

impl Default for PlacementTuning {
    fn default() -> (r: Self)
        ensures
            r.epsilon == VERIFY_EPS,
            r.settle_timing == (SettleTiming {
                apply_stutter_ms: 2,
                settle_sleep_ms: 20,
                settle_total_ms: 600,
            }),
    {
        PlacementTuning::new(VERIFY_EPS, SettleTiming::default())
    }
}

/// Summary of one attempt.
#[derive(Debug, Clone, Copy, PartialEq, Eq, Structural)]
pub struct AttemptRecord {
    /// What the attempt did.
    pub kind: AttemptKind,
    /// The order in which it set position and size.
    pub order: AttemptOrder,
    /// Its number, counted from one.
    pub attempt_idx: u32,
    /// Milliseconds until the window settled.
    pub settle_ms: u64,
    /// Whether the window ended up in place.
    pub verified: bool,
}

/// The name of an attempt kind.
pub open spec fn kind_name(kind: AttemptKind) -> Seq<char> {
    match kind {
        AttemptKind::Primary => "Primary"@,
        AttemptKind::AxisNudge => "AxisNudge"@,
        AttemptKind::RetryOpposite => "RetryOpposite"@,
        AttemptKind::SizeOnly => "SizeOnly"@,
        AttemptKind::AnchorSizeOnly => "AnchorSizeOnly"@,
        AttemptKind::AnchorLegal => "AnchorLegal"@,
        AttemptKind::FallbackShrinkMoveGrow => "FallbackShrinkMoveGrow"@,
    }
}

/// The name of an attempt order.
pub open spec fn order_name(order: AttemptOrder) -> Seq<char> {
    match order {
        AttemptOrder::PosThenSize => "PosThenSize"@,
        AttemptOrder::SizeThenPos => "SizeThenPos"@,
        AttemptOrder::AxisHorizontal => "AxisHorizontal"@,
        AttemptOrder::AxisVertical => "AxisVertical"@,
        AttemptOrder::SizeOnly => "SizeOnly"@,
        AttemptOrder::Anchor => "Anchor"@,
        AttemptOrder::Fallback => "Fallback"@,
    }
}

/// The name of a kind.
pub fn kind_text(kind: AttemptKind) -> (s: &'static str)
    ensures
        s@ == kind_name(kind),
{
    match kind {
        AttemptKind::Primary => "Primary",
        AttemptKind::AxisNudge => "AxisNudge",
        AttemptKind::RetryOpposite => "RetryOpposite",
        AttemptKind::SizeOnly => "SizeOnly",
        AttemptKind::AnchorSizeOnly => "AnchorSizeOnly",
        AttemptKind::AnchorLegal => "AnchorLegal",
        AttemptKind::FallbackShrinkMoveGrow => "FallbackShrinkMoveGrow",
    }
}

/// The name of an order.
pub fn order_text(order: AttemptOrder) -> (s: &'static str)
    ensures
        s@ == order_name(order),
{
    match order {
        AttemptOrder::PosThenSize => "PosThenSize",
        AttemptOrder::SizeThenPos => "SizeThenPos",
        AttemptOrder::AxisHorizontal => "AxisHorizontal",
        AttemptOrder::AxisVertical => "AxisVertical",
        AttemptOrder::SizeOnly => "SizeOnly",
        AttemptOrder::Anchor => "Anchor",
        AttemptOrder::Fallback => "Fallback",
    }
}

impl AttemptRecord {
    /// One attempt as a diagnostic shows it.
    pub open spec fn line(self) -> Seq<char> {
        "{idx="@ + dec(self.attempt_idx as nat) + " kind="@ + kind_name(self.kind) + " order="@
            + order_name(self.order) + " settle_ms="@ + dec(self.settle_ms as nat) + " verified="@
            + bool_word(self.verified) + "}"@
    }

    /// One attempt as a diagnostic shows it.
    pub fn describe(&self) -> (s: String)
        ensures
            s@ == self.line(),
    {
        let mut s = "{idx=".to_owned();
        s.append(decimal(self.attempt_idx as u64).as_str());
        s.append(" kind=");
        s.append(kind_text(self.kind));
        s.append(" order=");
        s.append(order_text(self.order));
        s.append(" settle_ms=");
        s.append(decimal(self.settle_ms).as_str());
        s.append(" verified=");
        s.append(bool_text(self.verified));
        s.append("}");
        s
    }
}

/// The attempts of a placement, oldest first.
#[derive(Debug, Clone)]
pub struct AttemptTimeline {
    entries: Vec<AttemptRecord>,
}

impl View for AttemptTimeline {
    type V = Seq<AttemptRecord>;

    closed spec fn view(&self) -> Seq<AttemptRecord> {
        self.entries@
    }
}

/// The diagnostic lines of a series of attempts.
pub open spec fn timeline_lines(entries: Seq<AttemptRecord>) -> Seq<Seq<char>> {
    Seq::new(entries.len(), |i: int| entries[i].line())
}

impl AttemptTimeline {
    /// A timeline without attempts.
    pub fn new() -> (r: Self)
        ensures
            r@ == Seq::<AttemptRecord>::empty(),
    {
        AttemptTimeline { entries: Vec::new() }
    }

    /// Append an attempt.
    pub fn push(&mut self, record: AttemptRecord)
        ensures
            final(self)@ == old(self)@.push(record),
    {
        self.entries.push(record);
    }

    /// The attempts, oldest first.
    pub fn entries(&self) -> (r: &[AttemptRecord])
        ensures
            r@ == self@,
    {
        self.entries.as_slice()
    }

    /// Number of attempts.
    pub fn len(&self) -> (r: usize)
        ensures
            r == self@.len(),
    {
        self.entries.len()
    }

    /// Whether no attempt has been made.
    pub fn is_empty(&self) -> (r: bool)
        ensures
            r == (self@.len() == 0),
    {
        self.entries.len() == 0
    }

    /// The attempts in brackets, separated by commas.
    pub fn describe(&self) -> (s: String)
        ensures
            s@ == "["@ + crate::text::joined(timeline_lines(self@), ", "@) + "]"@,
    {
        let mut parts: Vec<String> = Vec::new();
        let mut i: usize = 0;
        while i < self.entries.len()
            invariant
                i <= self.entries@.len(),
                crate::text::texts(parts@) =~= timeline_lines(self.entries@.take(i as int)),
            decreases self.entries@.len() - i,
        {
            let ghost before = parts@;
            parts.push(self.entries[i].describe());
            proof {
                assert(crate::text::texts(parts@) =~= crate::text::texts(before).push(
                    self.entries@[i as int].line(),
                ));
                assert(timeline_lines(self.entries@.take(i + 1)) =~= timeline_lines(
                    self.entries@.take(i as int),
                ).push(self.entries@[i as int].line()));
            }
            i = i + 1;
        }
        assert(self.entries@.take(i as int) =~= self.entries@);
        let mut s = "[".to_owned();
        s.append(crate::text::join(&parts, ", ").as_str());
        s.append("]");
        s
    }
}

impl Default for AttemptTimeline {
    fn default() -> (r: Self)
        ensures
            r@ == Seq::<AttemptRecord>::empty(),
    {
        AttemptTimeline::new()
    }
}

/// The stage at which shrink, move and grow is considered.
#[derive(Debug, Clone, Copy, PartialEq, Eq, Structural)]
pub enum FallbackTrigger {
    /// Asked for outright, before other attempts are exhausted.
    Forced,
    /// After every other attempt failed to verify.
    Final,
}

/// What a fallback hook is told.
#[derive(Debug)]
pub struct FallbackInvocation<'a> {
    /// The stage that asks.
    pub trigger: FallbackTrigger,
    /// The rectangle to be reached.
    pub target: Rect,
    /// The visible frame that the placement was resolved in.
    pub visible_frame: Rect,
    /// The attempts so far.
    pub timeline: &'a AttemptTimeline,
}

/// Decisions about safe parking and about the fallback, open to callers.
pub trait DecisionHooks: Sized {
    /// Whether a window is parked before it is placed.
    spec fn parks(&self, target: Rect, visible_frame: Rect, eps: i64) -> bool;

    /// Whether shrink, move and grow runs.
    spec fn falls_back(
        &self,
        trigger: FallbackTrigger,
        target: Rect,
        visible_frame: Rect,
        timeline: Seq<AttemptRecord>,
    ) -> bool;

    /// Decide whether a window is parked before it is placed.
    fn should_safe_park(&self, target: &Rect, visible_frame: &Rect, eps: i64) -> (r: bool)
        ensures
            r == self.parks(*target, *visible_frame, eps),
    ;

    /// Decide whether shrink, move and grow runs.
    fn should_run_fallback(&self, invocation: &FallbackInvocation<'_>) -> (r: bool)
        ensures
            r == self.falls_back(
                invocation.trigger,
                invocation.target,
                invocation.visible_frame,
                invocation.timeline@,
            ),
    ;
}

/// A target near the global origin on a screen that does not start there.
pub open spec fn near_foreign_origin(target: Rect, vf: Rect, eps: int) -> bool {
    &&& near(target.x as int, 0, eps)
    &&& near(target.y as int, 0, eps)
    &&& !near(vf.x as int, 0, eps) || !near(vf.y as int, 0, eps)
}

/// Whether the target lies near the global origin on a screen that does not
/// start there, where moves land in the wrong coordinate space.
pub fn safe_park_required(target: &Rect, vf: &Rect, eps: i64) -> (r: bool)
    ensures
        r == near_foreign_origin(*target, *vf, eps as int),
{
    let near_zero = approx_eq(target.x, 0, eps) && approx_eq(target.y, 0, eps);
    let non_primary = !approx_eq(vf.x, 0, eps) || !approx_eq(vf.y, 0, eps);
    near_zero && non_primary
}

/// Which windows are parked before they are placed.
#[derive(Debug, Clone, Copy, PartialEq, Eq, Structural)]
pub enum SafeParkRule {
    /// Those bound for the global origin on a screen that does not start there.
    NearForeignOrigin,
    /// All of them, or none.
    Fixed(bool),
}

/// At which stages shrink, move and grow runs.
#[derive(Debug, Clone, Copy, PartialEq, Eq, Structural)]
pub struct FallbackRule {
    /// Whether it runs outright.
    pub forced: bool,
    /// Whether it runs after every other attempt failed.
    pub last: bool,
}

/// Decisions that depend on fixed rules.
#[derive(Debug, Clone, Copy, PartialEq, Eq, Structural)]
pub struct PlacementDecisionHooks {
    /// Which windows are parked.
    pub safe_park: SafeParkRule,
    /// When shrink, move and grow runs.
    pub fallback: FallbackRule,
}

impl PlacementDecisionHooks {
    /// The same decisions with another parking rule.
    pub fn with_safe_park(self, rule: SafeParkRule) -> (r: Self)
        ensures
            r == (PlacementDecisionHooks { safe_park: rule, ..self }),
    {
        PlacementDecisionHooks { safe_park: rule, fallback: self.fallback }
    }

    /// The same decisions with another fallback rule.
    pub fn with_fallback(self, rule: FallbackRule) -> (r: Self)
        ensures
            r == (PlacementDecisionHooks { fallback: rule, ..self }),
    {
        PlacementDecisionHooks { safe_park: self.safe_park, fallback: rule }
    }
}

impl Default for PlacementDecisionHooks {
    fn default() -> (r: Self)
        ensures
            r == (PlacementDecisionHooks {
                safe_park: SafeParkRule::NearForeignOrigin,
                fallback: FallbackRule { forced: false, last: true },
            }),
    {
        PlacementDecisionHooks {
            safe_park: SafeParkRule::NearForeignOrigin,
            fallback: FallbackRule { forced: false, last: true },
        }
    }
}

impl DecisionHooks for PlacementDecisionHooks {
    open spec fn parks(&self, target: Rect, visible_frame: Rect, eps: i64) -> bool {
        match self.safe_park {
            SafeParkRule::NearForeignOrigin => near_foreign_origin(
                target,
                visible_frame,
                eps as int,
            ),
            SafeParkRule::Fixed(park) => park,
        }
    }

    open spec fn falls_back(
        &self,
        trigger: FallbackTrigger,
        target: Rect,
        visible_frame: Rect,
        timeline: Seq<AttemptRecord>,
    ) -> bool {
        match trigger {
            FallbackTrigger::Forced => self.fallback.forced,
            FallbackTrigger::Final => self.fallback.last,
        }
    }

    fn should_safe_park(&self, target: &Rect, visible_frame: &Rect, eps: i64) -> (r: bool) {
        match self.safe_park {
            SafeParkRule::NearForeignOrigin => safe_park_required(target, visible_frame, eps),
            SafeParkRule::Fixed(park) => park,
        }
    }

    fn should_run_fallback(&self, invocation: &FallbackInvocation<'_>) -> (r: bool) {
        match invocation.trigger {
            FallbackTrigger::Forced => self.fallback.forced,
            FallbackTrigger::Final => self.fallback.last,
        }
    }
}

/// How a placement is attempted.
#[derive(Debug, Clone, Copy)]
pub struct PlaceAttemptOptions<H> {
    force_second_attempt: bool,
    pos_first_only: bool,
    retry_limits: RetryLimits,
    tuning: PlacementTuning,
    hooks: H,
}

/// The settings that options stand for.
pub struct OptionsView<H> {
    /// Whether the opposite order is tried even after success.
    pub force_second_attempt: bool,
    /// Whether only the first attempt is allowed.
    pub pos_first_only: bool,
    /// How often each stage may run.
    pub retry_limits: RetryLimits,
    /// Tolerance and timing.
    pub tuning: PlacementTuning,
    /// Decisions left to the caller.
    pub hooks: H,
}

impl<H> View for PlaceAttemptOptions<H> {
    type V = OptionsView<H>;

    closed spec fn view(&self) -> OptionsView<H> {
        OptionsView {
            force_second_attempt: self.force_second_attempt,
            pos_first_only: self.pos_first_only,
            retry_limits: self.retry_limits,
            tuning: self.tuning,
            hooks: self.hooks,
        }
    }
}

impl Default for PlaceAttemptOptions<PlacementDecisionHooks> {
    fn default() -> (r: Self)
        ensures
            !r@.force_second_attempt,
            !r@.pos_first_only,
            r@.retry_limits == (RetryLimits {
                max_axis_nudges: 1,
                max_opposite_order: 1,
                max_anchor_attempts: 2,
                max_fallback_runs: 1,
            }),
            r@.tuning == (PlacementTuning {
                epsilon: VERIFY_EPS,
                settle_timing: SettleTiming {
                    apply_stutter_ms: 2,
                    settle_sleep_ms: 20,
                    settle_total_ms: 600,
                },
            }),
            r@.hooks == (PlacementDecisionHooks {
                safe_park: SafeParkRule::NearForeignOrigin,
                fallback: FallbackRule { forced: false, last: true },
            }),
    {
        PlaceAttemptOptions {
            force_second_attempt: false,
            pos_first_only: false,
            retry_limits: RetryLimits::default(),
            tuning: PlacementTuning::default(),
            hooks: PlacementDecisionHooks::default(),
        }
    }
}

impl<H> PlaceAttemptOptions<H> {
    /// Whether the opposite order is tried even after success.
    pub fn force_second_attempt(&self) -> (r: bool)
        ensures
            r == self@.force_second_attempt,
    {
        self.force_second_attempt
    }

    /// Whether only the first attempt is allowed.
    pub fn pos_first_only(&self) -> (r: bool)
        ensures
            r == self@.pos_first_only,
    {
        self.pos_first_only
    }

    /// How often each stage may run.
    pub fn retry_limits(&self) -> (r: RetryLimits)
        ensures
            r == self@.retry_limits,
    {
        self.retry_limits
    }

    /// Tolerance and timing.
    pub fn tuning(&self) -> (r: PlacementTuning)
        ensures
            r == self@.tuning,
    {
        self.tuning
    }

    /// Decisions left to the caller.
    pub fn hooks(&self) -> (r: &H)
        ensures
            *r == self@.hooks,
    {
        &self.hooks
    }

    /// The same options, with the opposite order forced or not.
    pub fn with_force_second_attempt(self, enabled: bool) -> (r: Self)
        ensures
            r@ == (OptionsView { force_second_attempt: enabled, ..self@ }),
    {
        let mut options = self;
        options.force_second_attempt = enabled;
        options
    }

    /// The same options, limited to the first attempt or not.
    pub fn with_pos_first_only(self, enabled: bool) -> (r: Self)
        ensures
            r@ == (OptionsView { pos_first_only: enabled, ..self@ }),
    {
        let mut options = self;
        options.pos_first_only = enabled;
        options
    }

    /// The same options with other limits.
    pub fn with_retry_limits(self, limits: RetryLimits) -> (r: Self)
        ensures
            r@ == (OptionsView { retry_limits: limits, ..self@ }),
    {
        let mut options = self;
        options.retry_limits = limits;
        options
    }

    /// The same options with other tuning.
    pub fn with_tuning(self, tuning: PlacementTuning) -> (r: Self)
        ensures
            r@ == (OptionsView { tuning, ..self@ }),
    {
        let mut options = self;
        options.tuning = tuning;
        options
    }

    /// The same options with other decisions.
    pub fn with_hooks<G>(self, hooks: G) -> (r: PlaceAttemptOptions<G>)
        ensures
            r@ == (OptionsView {
                force_second_attempt: self@.force_second_attempt,
                pos_first_only: self@.pos_first_only,
                retry_limits: self@.retry_limits,
                tuning: self@.tuning,
                hooks,
            }),
    {
        PlaceAttemptOptions {
            force_second_attempt: self.force_second_attempt,
            pos_first_only: self.pos_first_only,
            retry_limits: self.retry_limits,
            tuning: self.tuning,
            hooks,
        }
    }
}

impl PlaceAttemptOptions<PlacementDecisionHooks> {
    /// The same options with another parking rule.
    pub fn with_safe_park_hook(self, rule: SafeParkRule) -> (r: Self)
        ensures
            r@ == (OptionsView {
                hooks: (PlacementDecisionHooks { safe_park: rule, ..self@.hooks }),
                ..self@
            }),
    {
        let hooks = self.hooks.with_safe_park(rule);
        self.with_hooks(hooks)
    }

    /// The same options with another fallback rule.
    pub fn with_fallback_hook(self, rule: FallbackRule) -> (r: Self)
        ensures
            r@ == (OptionsView {
                hooks: (PlacementDecisionHooks { fallback: rule, ..self@.hooks }),
                ..self@
            }),
    {
        let hooks = self.hooks.with_fallback(rule);
        self.with_hooks(hooks)
    }
}

/// What a placement works on.
#[derive(Debug)]
pub struct PlacementContext<H> {
    /// The window.
    pub win: AxElem,
    /// The rectangle to be reached, in global coordinates.
    pub target: Rect,
    /// The visible frame that the target was resolved in.
    pub visible_frame: Rect,
    /// How the placement is attempted.
    pub options: PlaceAttemptOptions<H>,
    /// The screens of the desktop.
    pub screens: ScreenLayout,
}

impl<H> PlacementContext<H> {
    /// A context from its parts.
    pub fn new(
        win: AxElem,
        target: Rect,
        visible_frame: Rect,
        options: PlaceAttemptOptions<H>,
        screens: ScreenLayout,
    ) -> (r: Self)
        ensures
            r == (PlacementContext { win, target, visible_frame, options, screens }),
    {
        PlacementContext { win, target, visible_frame, options, screens }
    }

    /// The visible frame that the target was resolved in.
    pub fn visible_frame(&self) -> (r: &Rect)
        ensures
            *r == self.visible_frame,
    {
        &self.visible_frame
    }

    /// The rectangle to be reached.
    pub fn target(&self) -> (r: &Rect)
        ensures
            *r == self.target,
    {
        &self.target
    }

    /// Tolerance and timing.
    pub fn tuning(&self) -> (r: PlacementTuning)
        ensures
            r == self.options@.tuning,
    {
        self.options.tuning()
    }
}

/// Whether position is set before size: unless only the size can be set.
pub open spec fn position_first(can_pos: Option<bool>, can_size: Option<bool>) -> bool {
    !(can_pos == Some(false) && can_size == Some(true))
}

/// Choose the order of the first attempt from what is known to be settable.
/// Returns `true` for position first.
pub fn choose_initial_order(can_pos: Option<bool>, can_size: Option<bool>) -> (r: bool)
    ensures
        r == position_first(can_pos, can_size),
{
    match (can_pos, can_size) {
        (Some(false), Some(true)) => false,
        _ => true,
    }
}

} // verus!
