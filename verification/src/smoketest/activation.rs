//! Activating the HUD and waiting until its bindings are there.

use vstd::prelude::*;
use vstd::string::*;

use crate::smoketest::config::{ms, NANOS_PER_MS, RETRY_DELAY_MS};
use crate::smoketest::error::{DriverError, Error};
use crate::text::{bool_text, bool_word, dec, decimal, option_dump, option_text};

verus! {

/// The chord that activates the HUD.
pub fn activation_ident() -> (s: &'static str)
    ensures
        s@ == "shift+cmd+0"@,
{
    "shift+cmd+0"
}

/// What an activation came to.
#[derive(Debug, Clone, Copy, PartialEq, Eq, Structural)]
pub struct ActivationOutcome {
    /// Milliseconds until the HUD was reported visible.
    pub hud_update_ms: Option<u64>,
    /// Milliseconds until the HUD was seen in front.
    pub frontmost_ms: Option<u64>,
    /// How often the chord was injected.
    pub activation_attempts: u32,
    /// How often the HUD was reported visible.
    pub hud_updates_seen: u32,
    /// Whether the focus was reported to change.
    pub focus_event_seen: bool,
}

/// The earlier of two times, either of which may be missing.
pub open spec fn earliest(a: Option<u64>, b: Option<u64>) -> Option<u64> {
    match (a, b) {
        (Some(x), Some(y)) => if x <= y {
            Some(x)
        } else {
            Some(y)
        },
        (Some(x), None) => Some(x),
        (None, _) => b,
    }
}

impl ActivationOutcome {
    /// Milliseconds until the HUD was first known to be visible: the earlier of
    /// the report and the sight.
    pub fn hud_visible_ms(&self) -> (r: Option<u64>)
        ensures
            r == earliest(self.hud_update_ms, self.frontmost_ms),
    {
        match (self.hud_update_ms, self.frontmost_ms) {
            (Some(reported), Some(seen)) => if reported <= seen {
                Some(reported)
            } else {
                Some(seen)
            },
            (Some(reported), None) => Some(reported),
            (None, seen) => seen,
        }
    }

    /// Whether the HUD was reported visible by an event.
    pub fn observed_via_event(&self) -> (r: bool)
        ensures
            r == self.hud_update_ms is Some,
    {
        self.hud_update_ms.is_some()
    }

    /// Whether the focus was reported to change.
    pub fn focus_event_seen(&self) -> (r: bool)
        ensures
            r == self.focus_event_seen,
    {
        self.focus_event_seen
    }

    /// The outcome in logs.
    pub open spec fn summary(self) -> Seq<char> {
        "hud_update_ms="@ + option_dump(self.hud_update_ms) + " frontmost_ms="@ + option_dump(
            self.frontmost_ms,
        ) + " activation_attempts="@ + dec(self.activation_attempts as nat)
            + " hud_updates_seen="@ + dec(self.hud_updates_seen as nat) + " observed_via_event="@
            + bool_word(self.hud_update_ms is Some) + " focus_event_seen="@ + bool_word(
            self.focus_event_seen,
        )
    }

    /// The outcome in logs.
    pub fn summary_string(&self) -> (s: String)
        ensures
            s@ == self.summary(),
    {
        let mut s = "hud_update_ms=".to_owned();
        s.append(option_text(self.hud_update_ms).as_str());
        s.append(" frontmost_ms=");
        s.append(option_text(self.frontmost_ms).as_str());
        s.append(" activation_attempts=");
        s.append(decimal(self.activation_attempts as u64).as_str());
        s.append(" hud_updates_seen=");
        s.append(decimal(self.hud_updates_seen as u64).as_str());
        s.append(" observed_via_event=");
        s.append(bool_text(self.observed_via_event()));
        s.append(" focus_event_seen=");
        s.append(bool_text(self.focus_event_seen));
        s
    }
}

/// A count that stays at its largest value.
pub open spec fn counted(n: u32) -> u32 {
    if n == u32::MAX {
        u32::MAX
    } else {
        (n + 1) as u32
    }
}

fn count(n: u32) -> (r: u32)
    ensures
        r == counted(n),
{
    if n == u32::MAX {
        u32::MAX
    } else {
        n + 1
    }
}

/// What is measured during an activation; instants are in nanoseconds.
#[derive(Debug, Clone, Copy, PartialEq, Eq, Structural)]
pub struct ActivationMetrics {
    /// When the activation began.
    pub start: u64,
    /// When the HUD was first reported visible.
    pub hud_update_at: Option<u64>,
    /// When the HUD was first seen in front.
    pub frontmost_at: Option<u64>,
    /// How often the chord was injected.
    pub activation_attempts: u32,
    /// How often the HUD was reported visible.
    pub hud_updates_seen: u32,
    /// Whether the focus was reported to change.
    pub focus_event_seen: bool,
}

/// Milliseconds from one instant to another, none when they are reversed.
pub open spec fn since(start: u64, at: u64) -> u64 {
    if at >= start {
        ((at - start) / (NANOS_PER_MS as int)) as u64
    } else {
        0
    }
}

fn since_ms(start: u64, at: u64) -> (r: u64)
    ensures
        r == since(start, at),
{
    if at >= start {
        (at - start) / NANOS_PER_MS
    } else {
        0
    }
}

impl ActivationMetrics {
    /// Nothing measured yet.
    pub open spec fn fresh(start: u64) -> ActivationMetrics {
        ActivationMetrics {
            start,
            hud_update_at: None,
            frontmost_at: None,
            activation_attempts: 0,
            hud_updates_seen: 0,
            focus_event_seen: false,
        }
    }

    /// One more injection.
    pub open spec fn activated(self) -> ActivationMetrics {
        ActivationMetrics { activation_attempts: counted(self.activation_attempts), ..self }
    }

    /// One more report that the HUD is visible.
    pub open spec fn updated(self, now: u64) -> ActivationMetrics {
        ActivationMetrics {
            hud_updates_seen: counted(self.hud_updates_seen),
            hud_update_at: if self.hud_update_at is None {
                Some(now)
            } else {
                self.hud_update_at
            },
            ..self
        }
    }

    /// The HUD was seen in front.
    pub open spec fn fronted(self, now: u64) -> ActivationMetrics {
        ActivationMetrics {
            frontmost_at: if self.frontmost_at is None {
                Some(now)
            } else {
                self.frontmost_at
            },
            ..self
        }
    }

    /// What the measurements come to.
    pub open spec fn outcome(self) -> ActivationOutcome {
        ActivationOutcome {
            hud_update_ms: match self.hud_update_at {
                Some(at) => Some(since(self.start, at)),
                None => None,
            },
            frontmost_ms: match self.frontmost_at {
                Some(at) => Some(since(self.start, at)),
                None => None,
            },
            activation_attempts: self.activation_attempts,
            hud_updates_seen: self.hud_updates_seen,
            focus_event_seen: self.focus_event_seen,
        }
    }

    /// Nothing measured yet.
    pub fn new(start: u64) -> (r: Self)
        ensures
            r == ActivationMetrics::fresh(start),
    {
        ActivationMetrics {
            start,
            hud_update_at: None,
            frontmost_at: None,
            activation_attempts: 0,
            hud_updates_seen: 0,
            focus_event_seen: false,
        }
    }

    /// Note an injection.
    pub fn record_activation(&mut self)
        ensures
            *final(self) == old(self).activated(),
    {
        self.activation_attempts = count(self.activation_attempts);
    }

    /// Note a report that the HUD is visible.
    pub fn record_hud_update(&mut self, now: u64)
        ensures
            *final(self) == old(self).updated(now),
    {
        self.hud_updates_seen = count(self.hud_updates_seen);
        if self.hud_update_at.is_none() {
            self.hud_update_at = Some(now);
        }
    }

    /// Note that the HUD was seen in front.
    pub fn record_frontmost(&mut self, now: u64)
        ensures
            *final(self) == old(self).fronted(now),
    {
        if self.frontmost_at.is_none() {
            self.frontmost_at = Some(now);
        }
    }

    /// What the measurements come to.
    pub fn into_outcome(self) -> (r: ActivationOutcome)
        ensures
            r == self.outcome(),
    {
        ActivationOutcome {
            hud_update_ms: match self.hud_update_at {
                Some(at) => Some(since_ms(self.start, at)),
                None => None,
            },
            frontmost_ms: match self.frontmost_at {
                Some(at) => Some(since_ms(self.start, at)),
                None => None,
            },
            activation_attempts: self.activation_attempts,
            hud_updates_seen: self.hud_updates_seen,
            focus_event_seen: self.focus_event_seen,
        }
    }
}

/// An event of the server's stream.
#[derive(Debug, Clone, Copy, PartialEq, Eq, Structural)]
pub enum StreamEvent {
    /// The HUD was updated.
    Hud {
        /// Number of the event.
        id: u64,
        /// Whether the HUD is visible.
        visible: bool,
    },
    /// The focus has changed.
    FocusChanged,
    /// Anything else.
    Other,
}

/// Whether the HUD counts as visible: it says so, and a window of it is there.
pub fn hud_visible(snapshot_visible: Option<bool>, window_count: usize) -> (r: bool)
    ensures
        r == (snapshot_visible == Some(true) && window_count > 0),
{
    match snapshot_visible {
        Some(visible) => visible && window_count > 0,
        None => false,
    }
}

/// Whether the chord is due again.
pub open spec fn retry_due(last_attempt: Option<u64>, now: u64) -> bool {
    match last_attempt {
        None => true,
        Some(at) => now >= at + RETRY_DELAY_MS * NANOS_PER_MS,
    }
}

/// Whether the chord is due again.
pub fn should_retry(last_attempt: Option<u64>, now: u64) -> (r: bool)
    ensures
        r == retry_due(last_attempt, now),
{
    match last_attempt {
        None => true,
        Some(at) => now >= at && (now - at) as u128 >= ms(RETRY_DELAY_MS),
    }
}

/// Whole milliseconds before a deadline, when there is at least one.
pub open spec fn left_ms(deadline: u128, now: u64) -> Option<u64> {
    if deadline < now + NANOS_PER_MS {
        None
    } else {
        let whole = (deadline - now) / (NANOS_PER_MS as int);
        Some(
            if whole <= u64::MAX {
                whole as u64
            } else {
                u64::MAX
            },
        )
    }
}

/// How long to pause between looks, in nanoseconds.
pub const POLL_NANOS: u64 = 10_000_000;

/// What to do while the HUD is activated.
#[derive(Debug, Clone, Copy, PartialEq, Eq, Structural)]
pub enum ActivationAction {
    /// Wait for the binding of the chord, within milliseconds.
    AwaitActivation(u64),
    /// Inject the chord, within milliseconds.
    InjectActivation(u64),
    /// Take the events that have come.
    DrainEvents,
    /// Look whether the HUD is visible.
    CheckVisible,
    /// Wait for the nested bindings, within milliseconds.
    AwaitNested(u64),
    /// Pause for nanoseconds.
    Pause(u64),
    /// The HUD is ready.
    Succeed,
    /// The time is up.
    GiveUp,
}

/// What was learned while the HUD is activated.
#[derive(Debug)]
pub enum ActivationEvent {
    /// The step is done.
    Done,
    /// The events that have come.
    Drained(Vec<StreamEvent>),
    /// Whether the HUD is visible.
    Visible(bool),
    /// The bindings did not come in time.
    NotBound,
    /// The driver has failed.
    Failed(DriverError),
}

/// Where an activation stands.
#[derive(Debug, Clone, Copy, PartialEq, Eq, Structural)]
pub enum ActivationPhase {
    /// The binding of the chord is awaited.
    Binding,
    /// The chord is injected.
    Injecting,
    /// Events are taken.
    Draining,
    /// The HUD is looked at.
    Looking,
    /// The nested bindings are awaited.
    Nesting,
    /// A pause.
    Pausing,
}

/// An activation of the HUD.
#[derive(Debug, Clone, Copy, PartialEq, Eq, Structural)]
pub struct Activation {
    /// Allowance in milliseconds.
    pub timeout_ms: u64,
    /// When the time is up.
    pub deadline: u128,
    /// Whether nested bindings are awaited.
    pub nested: bool,
    /// What is measured.
    pub metrics: ActivationMetrics,
    /// When the chord was last injected, unless it is due at once.
    pub last_attempt: Option<u64>,
    /// The last event about the HUD.
    pub last_hud_event: Option<u64>,
    /// Whether the chord was injected before.
    pub begun: bool,
    /// Where the activation stands.
    pub phase: ActivationPhase,
}

impl Activation {
    /// The activation after an event of the stream.
    pub open spec fn noted(self, event: StreamEvent, now: u64) -> Activation {
        match event {
            StreamEvent::Hud { id, visible } => if self.last_hud_event == Some(id) {
                self
            } else {
                Activation {
                    last_hud_event: Some(id),
                    metrics: if visible {
                        self.metrics.updated(now)
                    } else {
                        self.metrics
                    },
                    ..self
                }
            },
            StreamEvent::FocusChanged => Activation {
                metrics: ActivationMetrics { focus_event_seen: true, ..self.metrics },
                ..self
            },
            StreamEvent::Other => self,
        }
    }

    /// The activation after events of the stream.
    pub open spec fn noted_all(self, events: Seq<StreamEvent>, now: u64) -> Activation
        decreases events.len(),
    {
        if events.len() == 0 {
            self
        } else {
            self.noted_all(events.drop_last(), now).noted(events.last(), now)
        }
    }

    /// Injecting the chord, if there is time.
    pub open spec fn dispatched(self, now: u64) -> (Activation, ActivationAction) {
        match left_ms(self.deadline, now) {
            None => (self, ActivationAction::GiveUp),
            Some(left) => (
                Activation { phase: ActivationPhase::Binding, ..self },
                ActivationAction::AwaitActivation(left),
            ),
        }
    }

    /// Looking again, if there is time.
    pub open spec fn looped(self, now: u64) -> (Activation, ActivationAction) {
        if now >= self.deadline {
            (self, ActivationAction::GiveUp)
        } else {
            (
                Activation { phase: ActivationPhase::Draining, ..self },
                ActivationAction::DrainEvents,
            )
        }
    }

    /// Pausing, if there is time.
    pub open spec fn paused(self, now: u64) -> (Activation, ActivationAction) {
        if self.deadline < now {
            (self, ActivationAction::GiveUp)
        } else {
            let left = self.deadline - now;
            (
                Activation { phase: ActivationPhase::Pausing, ..self },
                ActivationAction::Pause(
                    if left < POLL_NANOS {
                        left as u64
                    } else {
                        POLL_NANOS
                    },
                ),
            )
        }
    }

    /// Injecting the chord when it is due, else pausing.
    pub open spec fn retried(self, now: u64) -> (Activation, ActivationAction) {
        if retry_due(self.last_attempt, now) {
            self.dispatched(now)
        } else {
            self.paused(now)
        }
    }

    /// The activation after an event that is no failure, and what it calls for.
    pub open spec fn after(self, event: ActivationEvent, now: u64) -> (
        Activation,
        ActivationAction,
    ) {
        match self.phase {
            ActivationPhase::Binding => match left_ms(self.deadline, now) {
                None => (self, ActivationAction::GiveUp),
                Some(left) => (
                    Activation { phase: ActivationPhase::Injecting, ..self },
                    ActivationAction::InjectActivation(left),
                ),
            },
            ActivationPhase::Injecting => {
                let injected = Activation {
                    metrics: self.metrics.activated(),
                    last_attempt: Some(now),
                    begun: true,
                    ..self
                };
                if self.begun {
                    injected.paused(now)
                } else {
                    injected.looped(now)
                }
            },
            ActivationPhase::Draining => {
                let heard = match event {
                    ActivationEvent::Drained(events) => self.noted_all(events@, now),
                    _ => self,
                };
                (
                    Activation { phase: ActivationPhase::Looking, ..heard },
                    ActivationAction::CheckVisible,
                )
            },
            ActivationPhase::Looking => match event {
                ActivationEvent::Visible(true) => {
                    let seen = Activation { metrics: self.metrics.fronted(now), ..self };
                    if !self.nested {
                        (seen, ActivationAction::Succeed)
                    } else {
                        match left_ms(self.deadline, now) {
                            None => (seen, ActivationAction::GiveUp),
                            Some(left) => (
                                Activation { phase: ActivationPhase::Nesting, ..seen },
                                ActivationAction::AwaitNested(left),
                            ),
                        }
                    }
                },
                _ => self.retried(now),
            },
            ActivationPhase::Nesting => match event {
                ActivationEvent::NotBound => Activation { last_attempt: None, ..self }.retried(now),
                _ => (self, ActivationAction::Succeed),
            },
            ActivationPhase::Pausing => self.looped(now),
        }
    }
}

/// What comes next in an activation.
#[derive(Debug)]
pub enum ActivationStep {
    /// Do something and report.
    Perform(ActivationAction),
    /// The activation is over.
    Finish(Result<ActivationOutcome, Error>),
}

/// Whether a step is what an action amounts to.
pub open spec fn amounts_to(
    state: Activation,
    action: ActivationAction,
    step: ActivationStep,
) -> bool {
    match action {
        ActivationAction::Succeed => step == ActivationStep::Finish(Ok(state.metrics.outcome())),
        ActivationAction::GiveUp => step == ActivationStep::Finish(
            Err(Error::HudNotVisible { timeout_ms: state.timeout_ms }),
        ),
        _ => step == ActivationStep::Perform(action),
    }
}

impl Activation {
    fn remaining(&self, now: u64) -> (r: Option<u64>)
        ensures
            r == left_ms(self.deadline, now),
    {
        crate::smoketest::config::remaining_ms(self.deadline, now)
    }

    fn give_up(&self) -> (r: ActivationStep)
        ensures
            amounts_to(*self, ActivationAction::GiveUp, r),
    {
        ActivationStep::Finish(Err(Error::HudNotVisible { timeout_ms: self.timeout_ms }))
    }

    fn dispatch_activation(&mut self, now: u64) -> (r: ActivationStep)
        ensures
            *final(self) == old(self).dispatched(now).0,
            amounts_to(*final(self), old(self).dispatched(now).1, r),
    {
        match self.remaining(now) {
            None => self.give_up(),
            Some(left) => {
                self.phase = ActivationPhase::Binding;
                ActivationStep::Perform(ActivationAction::AwaitActivation(left))
            },
        }
    }

    fn look_again(&mut self, now: u64) -> (r: ActivationStep)
        ensures
            *final(self) == old(self).looped(now).0,
            amounts_to(*final(self), old(self).looped(now).1, r),
    {
        if now as u128 >= self.deadline {
            self.give_up()
        } else {
            self.phase = ActivationPhase::Draining;
            ActivationStep::Perform(ActivationAction::DrainEvents)
        }
    }

    fn pause(&mut self, now: u64) -> (r: ActivationStep)
        ensures
            *final(self) == old(self).paused(now).0,
            amounts_to(*final(self), old(self).paused(now).1, r),
    {
        if self.deadline < now as u128 {
            self.give_up()
        } else {
            let left: u128 = self.deadline - now as u128;
            self.phase = ActivationPhase::Pausing;
            let nap: u64 = if left < POLL_NANOS as u128 {
                left as u64
            } else {
                POLL_NANOS
            };
            ActivationStep::Perform(ActivationAction::Pause(nap))
        }
    }

    fn retry(&mut self, now: u64) -> (r: ActivationStep)
        ensures
            *final(self) == old(self).retried(now).0,
            amounts_to(*final(self), old(self).retried(now).1, r),
    {
        if should_retry(self.last_attempt, now) {
            self.dispatch_activation(now)
        } else {
            self.pause(now)
        }
    }

    fn hear(&mut self, events: &Vec<StreamEvent>, now: u64)
        ensures
            *final(self) == old(self).noted_all(events@, now),
    {
        let mut i: usize = 0;
        while i < events.len()
            invariant
                i <= events@.len(),
                *self == old(self).noted_all(events@.take(i as int), now),
            decreases events@.len() - i,
        {
            assert(events@.take(i + 1).drop_last() =~= events@.take(i as int));
            assert(events@.take(i + 1).last() == events@[i as int]);
            match events[i] {
                StreamEvent::Hud { id, visible } => {
                    let repeated = match self.last_hud_event {
                        Some(last) => last == id,
                        None => false,
                    };
                    if !repeated {
                        self.last_hud_event = Some(id);
                        if visible {
                            self.metrics.record_hud_update(now);
                        }
                    }
                },
                StreamEvent::FocusChanged => {
                    self.metrics.focus_event_seen = true;
                },
                StreamEvent::Other => {},
            }
            i = i + 1;
        }
        assert(events@.take(i as int) =~= events@);
    }

    /// Take in what was learned, and say what comes next. A failed driver ends the
    /// activation.
    pub fn next(&mut self, event: ActivationEvent, now: u64) -> (r: ActivationStep)
        ensures
            match event {
                ActivationEvent::Failed(e) => r == ActivationStep::Finish(Err(Error::RpcDriver(e))),
                _ => {
                    let (state, action) = old(self).after(event, now);
                    *final(self) == state && amounts_to(state, action, r)
                },
            },
    {
        if let ActivationEvent::Failed(e) = event {
            return ActivationStep::Finish(Err(Error::RpcDriver(e)));
        }
        match self.phase {
            ActivationPhase::Binding => match self.remaining(now) {
                None => self.give_up(),
                Some(left) => {
                    self.phase = ActivationPhase::Injecting;
                    ActivationStep::Perform(ActivationAction::InjectActivation(left))
                },
            },
            ActivationPhase::Injecting => {
                let again = self.begun;
                self.metrics.record_activation();
                self.last_attempt = Some(now);
                self.begun = true;
                if again {
                    self.pause(now)
                } else {
                    self.look_again(now)
                }
            },
            ActivationPhase::Draining => {
                if let ActivationEvent::Drained(events) = &event {
                    self.hear(events, now);
                }
                self.phase = ActivationPhase::Looking;
                ActivationStep::Perform(ActivationAction::CheckVisible)
            },
            ActivationPhase::Looking => match event {
                ActivationEvent::Visible(true) => {
                    self.metrics.record_frontmost(now);
                    if !self.nested {
                        return ActivationStep::Finish(Ok(self.metrics.into_outcome()));
                    }
                    match self.remaining(now) {
                        None => self.give_up(),
                        Some(left) => {
                            self.phase = ActivationPhase::Nesting;
                            ActivationStep::Perform(ActivationAction::AwaitNested(left))
                        },
                    }
                },
                _ => self.retry(now),
            },
            ActivationPhase::Nesting => match event {
                ActivationEvent::NotBound => {
                    self.last_attempt = None;
                    self.retry(now)
                },
                _ => ActivationStep::Finish(Ok(self.metrics.into_outcome())),
            },
            ActivationPhase::Pausing => self.look_again(now),
        }
    }
}

/// Watches the HUD of a process while it is activated.
#[derive(Debug, Clone, Copy, PartialEq, Eq, Structural)]
pub struct BindingWatcher {
    /// The process that has to own the HUD.
    pub hud_pid: i32,
}

impl BindingWatcher {
    /// A watcher of a process.
    pub fn new(hud_pid: i32) -> (r: Self)
        ensures
            r.hud_pid == hud_pid,
    {
        BindingWatcher { hud_pid }
    }

    /// A watcher of a process behind a socket, which needs no connection of its own.
    pub fn connect(_socket_path: &str, hud_pid: i32) -> (r: Result<Self, Error>)
        ensures
            r == Ok::<Self, Error>(BindingWatcher { hud_pid }),
    {
        Ok(BindingWatcher { hud_pid })
    }

    /// Begin an activation.
    pub fn activate_until_ready(&self, timeout_ms: u64, nested: bool, now: u64) -> (r: (
        Activation,
        ActivationStep,
    ))
        ensures
            ({
                let begun = Activation {
                    timeout_ms,
                    deadline: (now + timeout_ms * NANOS_PER_MS) as u128,
                    nested,
                    metrics: ActivationMetrics::fresh(now),
                    last_attempt: None,
                    last_hud_event: None,
                    begun: false,
                    phase: ActivationPhase::Binding,
                };
                &&& r.0 == begun.dispatched(now).0
                &&& amounts_to(r.0, begun.dispatched(now).1, r.1)
            }),
    {
        let deadline: u128 = now as u128 + ms(timeout_ms);
        let mut state = Activation {
            timeout_ms,
            deadline,
            nested,
            metrics: ActivationMetrics::new(now),
            last_attempt: None,
            last_hud_event: None,
            begun: false,
            phase: ActivationPhase::Binding,
        };
        let step = state.dispatch_activation(now);
        (state, step)
    }
}

/// An activation is given up only when less than a millisecond is left.
pub proof fn giving_up_means_out_of_time(a: Activation, event: ActivationEvent, now: u64)
    requires
        a.after(event, now).1 is GiveUp,
    ensures
        a.deadline < now + NANOS_PER_MS,
{
}

/// An activation succeeds only when the HUD is seen and no bindings are awaited,
/// or when the awaited bindings have come.
pub proof fn success_means_ready(a: Activation, event: ActivationEvent, now: u64)
    requires
        a.after(event, now).1 is Succeed,
    ensures
        ({
            ||| a.phase is Looking && event == ActivationEvent::Visible(true) && !a.nested
            ||| a.phase is Nesting && !(event is NotBound)
        }),
{
}

/// A visible HUD is noted before the activation succeeds.
pub proof fn nesting_has_seen_the_hud(a: Activation, event: ActivationEvent, now: u64)
    requires
        a.phase is Nesting ==> a.metrics.frontmost_at is Some,
    ensures
        a.after(event, now).0.phase is Nesting ==> a.after(event, now).0.metrics.frontmost_at is Some,
        a.after(event, now).1 is Succeed ==> a.after(event, now).0.metrics.frontmost_at is Some,
{
}

} // verus!
