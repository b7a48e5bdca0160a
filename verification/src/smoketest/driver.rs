//! The driver of the bridge: it holds the connection, waits for the bridge and for
//! bindings, and injects keys.

use vstd::prelude::*;
use vstd::string::*;

use crate::smoketest::bridge::{
    shown_since, took_event, BridgeClient, BridgeEvent, BridgeEventRecord, BridgeReply,
    BridgeRequest, BridgeResponse, Call, CallAction, HudSnapshot, WorldFocusSnapshot,
    EVENT_BUFFER_CAPACITY,
};
use crate::smoketest::config::{ms, FAST_DELAY_MS, NANOS_PER_MS, RETRY_DELAY_MS};
use crate::smoketest::error::DriverError;
use crate::text::{
    chars_of, contains_text, join, joined, occurs, text_eq, texts, trim_char, trimmed_end,
    trimmed_start,
};

verus! {

/// The control socket of a server, unless the environment names one.
pub open spec fn control_path(server_socket: Seq<char>, chosen: Option<Seq<char>>) -> Seq<char> {
    match chosen {
        Some(path) => path,
        None => server_socket + ".bridge"@,
    }
}

/// The view of an optional text.
pub open spec fn some_text(t: Option<&str>) -> Option<Seq<char>> {
    match t {
        Some(s) => Some(s@),
        None => None,
    }
}

/// The control socket of a server; `chosen` is the one that the environment names.
pub fn control_socket_path(server_socket: &str, chosen: Option<&str>) -> (r: String)
    ensures
        r@ == control_path(server_socket@, some_text(chosen)),
{
    match chosen {
        Some(path) => path.to_owned(),
        None => {
            let mut s = server_socket.to_owned();
            s.append(".bridge");
            s
        },
    }
}

/// The short reason of a failed attempt.
pub open spec fn init_reason(err: DriverError) -> Seq<char> {
    match err {
        DriverError::Connect { reason, .. } => reason@,
        DriverError::BridgeFailure { message } => message@,
        DriverError::Io { reason, .. } => reason@,
        other => other.text(),
    }
}

/// The short reason of a failed attempt.
pub fn describe_init_error(err: &DriverError) -> (r: String)
    ensures
        r@ == init_reason(*err),
{
    match err {
        DriverError::Connect { socket_path: _, reason } => reason.clone(),
        DriverError::BridgeFailure { message } => message.clone(),
        DriverError::Io { io_kind: _, reason } => reason.clone(),
        other => other.describe(),
    }
}

/// Whether a message says that a key is not bound.
pub fn message_contains_key_not_bound(msg: &str) -> (r: bool)
    ensures
        r <==> occurs(msg@, "KeyNotBound"@),
{
    contains_text(msg, "KeyNotBound")
}

/// Whether an error says that a key is not bound.
pub open spec fn not_bound(err: DriverError) -> bool {
    err matches DriverError::BridgeFailure { message } && occurs(message@, "KeyNotBound"@)
}

fn is_not_bound(err: &DriverError) -> (r: bool)
    ensures
        r <==> not_bound(*err),
{
    match err {
        DriverError::BridgeFailure { message } => message_contains_key_not_bound(message.as_str()),
        _ => false,
    }
}

fn unexpected() -> (r: DriverError)
    ensures
        r matches DriverError::BridgeFailure { message } && message@
            == "unexpected bridge response"@,
{
    DriverError::BridgeFailure { message: "unexpected bridge response".to_owned() }
}

/// Whether an error says that an answer was of the wrong kind.
pub open spec fn is_unexpected(err: DriverError) -> bool {
    err matches DriverError::BridgeFailure { message } && message@ == "unexpected bridge response"@
}

impl BridgeResponse {
    /// Take the answer as a plain success.
    pub fn into_result(self) -> (r: Result<(), DriverError>)
        ensures
            match self {
                BridgeResponse::Okay => r is Ok,
                BridgeResponse::Failure { message } => r == Err::<(), DriverError>(
                    DriverError::BridgeFailure { message },
                ),
                _ => r matches Err(e) && is_unexpected(e),
            },
    {
        match self {
            BridgeResponse::Okay => Ok(()),
            BridgeResponse::Failure { message } => Err(DriverError::BridgeFailure { message }),
            _ => Err(unexpected()),
        }
    }

    /// Take the answer as bindings.
    pub fn into_bindings(self) -> (r: Result<Vec<String>, DriverError>)
        ensures
            match self {
                BridgeResponse::Bindings(v) => r == Ok::<Vec<String>, DriverError>(v),
                BridgeResponse::Failure { message } => r == Err::<Vec<String>, DriverError>(
                    DriverError::BridgeFailure { message },
                ),
                _ => r matches Err(e) && is_unexpected(e),
            },
    {
        match self {
            BridgeResponse::Bindings(v) => Ok(v),
            BridgeResponse::Failure { message } => Err(DriverError::BridgeFailure { message }),
            _ => Err(unexpected()),
        }
    }

    /// Take the answer as a depth.
    pub fn into_depth(self) -> (r: Result<usize, DriverError>)
        ensures
            match self {
                BridgeResponse::Depth(d) => r == Ok::<usize, DriverError>(d),
                BridgeResponse::Failure { message } => r == Err::<usize, DriverError>(
                    DriverError::BridgeFailure { message },
                ),
                _ => r matches Err(e) && is_unexpected(e),
            },
    {
        match self {
            BridgeResponse::Depth(d) => Ok(d),
            BridgeResponse::Failure { message } => Err(DriverError::BridgeFailure { message }),
            _ => Err(unexpected()),
        }
    }

    /// Take the answer as a state of the world service.
    pub fn into_world_seq(self) -> (r: Result<u64, DriverError>)
        ensures
            match self {
                BridgeResponse::WorldSeq(n) => r == Ok::<u64, DriverError>(n),
                BridgeResponse::Failure { message } => r == Err::<u64, DriverError>(
                    DriverError::BridgeFailure { message },
                ),
                _ => r matches Err(e) && is_unexpected(e),
            },
    {
        match self {
            BridgeResponse::WorldSeq(n) => Ok(n),
            BridgeResponse::Failure { message } => Err(DriverError::BridgeFailure { message }),
            _ => Err(unexpected()),
        }
    }

    /// Take the answer as a snapshot of the world.
    pub fn into_snapshot(self) -> (r: Result<String, DriverError>)
        ensures
            match self {
                BridgeResponse::Snapshot(t) => r == Ok::<String, DriverError>(t),
                BridgeResponse::Failure { message } => r == Err::<String, DriverError>(
                    DriverError::BridgeFailure { message },
                ),
                _ => r matches Err(e) && is_unexpected(e),
            },
    {
        match self {
            BridgeResponse::Snapshot(t) => Ok(t),
            BridgeResponse::Failure { message } => Err(DriverError::BridgeFailure { message }),
            _ => Err(unexpected()),
        }
    }
}

/// The driver: at most one connection.
#[derive(Debug)]
pub struct Driver {
    /// The connection.
    pub conn: Option<BridgeClient>,
}

/// Whether a call of a request has begun on a connection, or there is none.
pub open spec fn begun(
    conn: Option<BridgeClient>,
    request: BridgeRequest,
    r: Result<(Call, CallAction), DriverError>,
) -> bool {
    match conn {
        None => r matches Err(DriverError::NotInitialized),
        Some(client) => r matches Ok((call, action)) && call.request == request && !call.greeting
            && call.valid() && call.attempts@ == seq![0u32] && call.phase is Sending && action == (
        CallAction::Send { command_id: client.next_command_id, request }),
    }
}

impl Driver {
    /// A driver without a connection.
    pub fn new() -> (r: Self)
        ensures
            r.conn is None,
    {
        Driver { conn: None }
    }

    /// Whether there is a connection.
    pub fn is_ready(&self) -> (r: bool)
        ensures
            r <==> self.conn is Some,
    {
        match self.conn {
            Some(_) => true,
            None => false,
        }
    }

    /// Drop the connection.
    pub fn reset(&mut self)
        ensures
            final(self).conn is None,
    {
        self.conn = None;
    }

    /// Begin a call.
    pub fn begin(&self, request: BridgeRequest) -> (r: Result<(Call, CallAction), DriverError>)
        ensures
            begun(self.conn, request, r),
    {
        match &self.conn {
            None => Err(DriverError::NotInitialized),
            Some(client) => Ok(Call::begin(client, request, false)),
        }
    }

    /// Begin to ask for the bindings.
    pub fn get_bindings(&self) -> (r: Result<(Call, CallAction), DriverError>)
        ensures
            begun(self.conn, BridgeRequest::GetBindings, r),
    {
        self.begin(BridgeRequest::GetBindings)
    }

    /// Begin to probe the server.
    pub fn check_alive(&self) -> (r: Result<(Call, CallAction), DriverError>)
        ensures
            begun(self.conn, BridgeRequest::GetDepth, r),
    {
        self.begin(BridgeRequest::GetDepth)
    }

    /// Begin to ask for a snapshot of the world.
    pub fn get_world_snapshot(&self) -> (r: Result<(Call, CallAction), DriverError>)
        ensures
            begun(self.conn, BridgeRequest::GetWorldSnapshot, r),
    {
        self.begin(BridgeRequest::GetWorldSnapshot)
    }

    /// Begin to wait for a state of the world service.
    pub fn wait_for_world_seq(&self, target: u64, timeout_ms: u64) -> (r: Result<
        (Call, CallAction),
        DriverError,
    >)
        ensures
            begun(self.conn, BridgeRequest::WaitForWorldSeq { target, timeout_ms }, r),
    {
        self.begin(BridgeRequest::WaitForWorldSeq { target, timeout_ms })
    }

    /// Begin to load a config from a path; a path that is no text is refused, with
    /// `shown` in its place.
    pub fn set_config_from_path(&self, path: Option<String>, shown: &str) -> (r: Result<
        (Call, CallAction),
        DriverError,
    >)
        ensures
            match path {
                Some(path) => begun(self.conn, BridgeRequest::SetConfig { path }, r),
                None => r matches Err(DriverError::BridgeFailure { message }) && message@
                    == "non-UTF-8 config path: "@ + shown@,
            },
    {
        match path {
            Some(path) => self.begin(BridgeRequest::SetConfig { path }),
            None => {
                let mut s = "non-UTF-8 config path: ".to_owned();
                s.append(shown);
                Err(DriverError::BridgeFailure { message: s })
            },
        }
    }

    /// The last update of the HUD.
    pub fn latest_hud(&self) -> (r: Result<Option<&HudSnapshot>, DriverError>)
        ensures
            match self.conn {
                None => r matches Err(DriverError::NotInitialized),
                Some(client) => r matches Ok(hud) && (match client.latest_hud {
                    Some(h) => hud matches Some(x) && *x == h,
                    None => hud is None,
                }),
            },
    {
        match &self.conn {
            None => Err(DriverError::NotInitialized),
            Some(client) => match &client.latest_hud {
                Some(h) => Ok(Some(h)),
                None => Ok(None),
            },
        }
    }

    /// The last change of the focus.
    pub fn latest_world_focus(&self) -> (r: Result<Option<&WorldFocusSnapshot>, DriverError>)
        ensures
            match self.conn {
                None => r matches Err(DriverError::NotInitialized),
                Some(client) => r matches Ok(focus) && (match client.latest_focus {
                    Some(f) => focus matches Some(x) && *x == f,
                    None => focus is None,
                }),
            },
    {
        match &self.conn {
            None => Err(DriverError::NotInitialized),
            Some(client) => match &client.latest_focus {
                Some(f) => Ok(Some(f)),
                None => Ok(None),
            },
        }
    }

    /// Take the events out.
    pub fn drain_bridge_events(&mut self) -> (r: Result<Vec<BridgeEventRecord>, DriverError>)
        ensures
            match old(self).conn {
                None => (r matches Err(DriverError::NotInitialized)) && final(self).conn is None,
                Some(before) => {
                    &&& r matches Ok(events)
                    &&& events@ == before.events@
                    &&& final(self).conn matches Some(after)
                    &&& after.events@.len() == 0
                    &&& after.same_link(&before)
                    &&& after.latest_hud == before.latest_hud
                    &&& after.latest_focus == before.latest_focus
                    &&& after.handshake == before.handshake
                },
            },
    {
        match self.conn.take() {
            None => Err(DriverError::NotInitialized),
            Some(client) => {
                let mut client = client;
                let events = client.drain_events();
                self.conn = Some(client);
                Ok(events)
            },
        }
    }

    /// Begin a shutdown: how many events were observed so far, and the call.
    pub fn shutdown(&self) -> (r: Result<(usize, Call, CallAction), DriverError>)
        ensures
            match self.conn {
                None => r matches Err(DriverError::NotInitialized),
                Some(client) => {
                    &&& r matches Ok((baseline, call, action))
                    &&& baseline == client.observed
                    &&& begun(self.conn, BridgeRequest::Shutdown, Ok((call, action)))
                },
            },
    {
        match &self.conn {
            None => Err(DriverError::NotInitialized),
            Some(client) => {
                let (call, action) = Call::begin(client, BridgeRequest::Shutdown, false);
                Ok((client.event_buffer_len(), call, action))
            },
        }
    }

    /// Judge a shutdown once the call is over, and drop the connection. The shutdown
    /// fails when the call has, or when events have come meanwhile.
    pub fn finish_shutdown(
        &mut self,
        baseline: usize,
        outcome: Result<BridgeResponse, DriverError>,
    ) -> (r: Result<(), DriverError>)
        ensures
            final(self).conn is None,
            match (old(self).conn, outcome) {
                (None, _) => r matches Err(DriverError::NotInitialized),
                (Some(_), Err(e)) => r == Err::<(), DriverError>(e),
                (Some(client), Ok(answer)) => match answer {
                    BridgeResponse::Okay => if client.observed > baseline {
                        r matches Err(DriverError::PostShutdownMessage { message }) && message@
                            == "bridge event observed after shutdown: "@ + shown_since(
                            client.events@,
                            client.observed - baseline,
                        )
                    } else {
                        r is Ok
                    },
                    BridgeResponse::Failure { message } => r == Err::<(), DriverError>(
                        DriverError::BridgeFailure { message },
                    ),
                    _ => r matches Err(e) && is_unexpected(e),
                },
            },
    {
        match self.conn.take() {
            None => Err(DriverError::NotInitialized),
            Some(client) => match outcome {
                Err(e) => Err(e),
                Ok(answer) => match answer.into_result() {
                    Err(e) => Err(e),
                    Ok(()) => client.assert_no_new_events_since(baseline),
                },
            },
        }
    }

    /// Begin to press or release a key.
    pub fn begin_key(&self, ident: &str, down: bool) -> (r: Result<(Call, CallAction), DriverError>)
        ensures
            exists|text: String| #[trigger]
                text@ == ident@ && begun(
                    self.conn,
                    BridgeRequest::InjectKey { ident: text, down },
                    r,
                ),
    {
        let text = ident.to_owned();
        let ghost held = text;
        let r = self.begin(BridgeRequest::InjectKey { ident: text, down });
        assert(held@ == ident@ && begun(
            self.conn,
            BridgeRequest::InjectKey { ident: held, down },
            r,
        ));
        r
    }

    /// Begin to inject a key by its canonical name: it may take three times as long as
    /// a binding takes to appear.
    pub fn inject_key(&self, ident: String, binding_gate_ms: u64, now: u64) -> (r: Result<
        KeyInjection,
        DriverError,
    >)
        ensures
            match self.conn {
                None => r matches Err(DriverError::NotInitialized),
                Some(_) => r matches Ok(k) && k.ident == ident && k.gate_ms == key_gate(
                    binding_gate_ms,
                ) && k.deadline == now + key_gate(binding_gate_ms) * NANOS_PER_MS && k.phase
                    is Pressing,
            },
    {
        match &self.conn {
            None => Err(DriverError::NotInitialized),
            Some(_) => {
                let gate_ms: u64 = if binding_gate_ms > u64::MAX / 3 {
                    u64::MAX
                } else {
                    binding_gate_ms * 3
                };
                Ok(
                    KeyInjection {
                        ident,
                        gate_ms,
                        deadline: now as u128 + ms(gate_ms),
                        phase: KeyPhase::Pressing,
                    },
                )
            },
        }
    }
}

/// How long a key may take to be bound.
pub open spec fn key_gate(binding_gate_ms: u64) -> u64 {
    if binding_gate_ms * 3 > u64::MAX {
        u64::MAX
    } else {
        (binding_gate_ms * 3) as u64
    }
}

/// Where the injection of a key stands.
#[derive(Debug, Clone, Copy, PartialEq, Eq, Structural)]
pub enum KeyPhase {
    /// The key is pressed.
    Pressing,
    /// The key is released.
    Releasing,
    /// It is over.
    Over,
}

/// What to do while a key is injected.
#[derive(Debug)]
pub enum KeyStep {
    /// Pause for milliseconds, then press the key again.
    PauseThenPress(u64),
    /// Wait for as long as a key is held, then release it.
    HoldThenRelease,
    /// The key was injected.
    Done,
    /// The key could not be injected.
    Failed(DriverError),
}

/// A key that is injected.
#[derive(Debug)]
pub struct KeyInjection {
    /// The key.
    pub ident: String,
    /// How long the key may take to be bound, in milliseconds.
    pub gate_ms: u64,
    /// When the key has to be bound.
    pub deadline: u128,
    /// Where the injection stands.
    pub phase: KeyPhase,
}

impl KeyInjection {
    /// Take in what came of the press or the release.
    pub fn next(&mut self, outcome: Result<(), DriverError>, now: u64) -> (r: KeyStep)
        ensures
            final(self).ident == old(self).ident,
            final(self).gate_ms == old(self).gate_ms,
            final(self).deadline == old(self).deadline,
            key_answer(*old(self), outcome, now, final(self).phase, r),
    {
        match self.phase {
            KeyPhase::Pressing => match outcome {
                Ok(()) => {
                    self.phase = KeyPhase::Releasing;
                    KeyStep::HoldThenRelease
                },
                Err(e) => {
                    if is_not_bound(&e) {
                        if now as u128 >= self.deadline {
                            self.phase = KeyPhase::Over;
                            return KeyStep::Failed(
                                DriverError::BindingTimeout {
                                    ident: self.ident.clone(),
                                    timeout_ms: self.gate_ms,
                                },
                            );
                        }
                        return KeyStep::PauseThenPress(RETRY_DELAY_MS);
                    }
                    self.phase = KeyPhase::Over;
                    KeyStep::Failed(e)
                },
            },
            KeyPhase::Releasing => {
                self.phase = KeyPhase::Over;
                match outcome {
                    Ok(()) => KeyStep::Done,
                    Err(e) => {
                        if is_not_bound(&e) {
                            KeyStep::Done
                        } else {
                            KeyStep::Failed(e)
                        }
                    },
                }
            },
            KeyPhase::Over => KeyStep::Done,
        }
    }
}

/// Whether the outcome of a press or a release is answered as it has to be: a key that
/// is not bound yet is pressed again until its time is up; a key that is no longer
/// bound counts as released.
pub open spec fn key_answer(
    before: KeyInjection,
    outcome: Result<(), DriverError>,
    now: u64,
    after: KeyPhase,
    step: KeyStep,
) -> bool {
    match before.phase {
        KeyPhase::Pressing => match outcome {
            Ok(_) => after is Releasing && step is HoldThenRelease,
            Err(e) => if !not_bound(e) {
                after is Over && step == KeyStep::Failed(e)
            } else if now >= before.deadline {
                after is Over && step == KeyStep::Failed(
                    DriverError::BindingTimeout { ident: before.ident, timeout_ms: before.gate_ms },
                )
            } else {
                after is Pressing && step == KeyStep::PauseThenPress(RETRY_DELAY_MS)
            },
        },
        KeyPhase::Releasing => after is Over && match outcome {
            Ok(_) => step is Done,
            Err(e) => if not_bound(e) {
                step is Done
            } else {
                step == KeyStep::Failed(e)
            },
        },
        KeyPhase::Over => after is Over && step is Done,
    }
}

/// What to do while keys are injected one after the other.
#[derive(Debug)]
pub enum SequenceStep {
    /// Inject the key at this place.
    Inject(usize),
    /// Pause for milliseconds.
    Pause(u64),
    /// All keys were injected.
    Done,
    /// A key could not be injected.
    Failed(DriverError),
}

/// What came of it.
#[derive(Debug)]
pub enum SequenceEvent {
    /// The key was injected, or why it was not.
    Injected(Result<(), DriverError>),
    /// The pause is over.
    Rested,
}

/// Keys that are injected one after the other, with a pause after each.
#[derive(Debug, Clone, Copy, PartialEq, Eq, Structural)]
pub struct KeySequence {
    /// How many keys there are.
    pub count: usize,
    /// How many pauses are over.
    pub at: usize,
    /// Pause after a key, in milliseconds.
    pub delay_ms: u64,
}

impl KeySequence {
    /// The step between keys.
    pub open spec fn due(self) -> SequenceStep {
        if self.at < self.count {
            SequenceStep::Inject(self.at)
        } else {
            SequenceStep::Done
        }
    }

    fn go_on(&self) -> (r: SequenceStep)
        ensures
            r == self.due(),
    {
        if self.at < self.count {
            SequenceStep::Inject(self.at)
        } else {
            SequenceStep::Done
        }
    }

    /// Begin to inject keys.
    pub fn inject_sequence(count: usize, delay_ms: u64) -> (r: (Self, SequenceStep))
        ensures
            r.0 == (KeySequence { count, at: 0, delay_ms }),
            r.1 == r.0.due(),
    {
        let keys = KeySequence { count, at: 0, delay_ms };
        (keys, keys.go_on())
    }

    /// Take in what came of the last step. The first key that fails ends the sequence.
    pub fn next(&mut self, event: SequenceEvent) -> (r: SequenceStep)
        ensures
            final(self).count == old(self).count,
            final(self).delay_ms == old(self).delay_ms,
            match event {
                SequenceEvent::Injected(Ok(_)) => *final(self) == *old(self) && r
                    == SequenceStep::Pause(old(self).delay_ms),
                SequenceEvent::Injected(Err(e)) => *final(self) == *old(self) && r
                    == SequenceStep::Failed(e),
                SequenceEvent::Rested => final(self).at == (if old(self).at < old(self).count {
                    old(self).at + 1
                } else {
                    old(self).at as int
                }) && r == final(self).due(),
            },
    {
        match event {
            SequenceEvent::Injected(Ok(())) => SequenceStep::Pause(self.delay_ms),
            SequenceEvent::Injected(Err(e)) => SequenceStep::Failed(e),
            SequenceEvent::Rested => {
                if self.at < self.count {
                    self.at = self.at + 1;
                }
                self.go_on()
            },
        }
    }
}

/// What came of an attempt to reach the bridge.
#[derive(Debug)]
pub enum InitEvent {
    /// The bridge was reached and greeted.
    Reached(BridgeClient),
    /// The attempt has failed.
    Missed(DriverError),
    /// The pause is over.
    Rested,
}

/// What to do while the bridge is awaited.
#[derive(Debug)]
pub enum InitStep {
    /// Connect and greet.
    Attempt,
    /// Pause for milliseconds.
    Pause(u64),
    /// The driver is ready.
    Ready,
    /// The bridge could not be reached.
    Failed(DriverError),
}

/// A wait for the bridge.
#[derive(Debug)]
pub struct InitWait {
    /// The control socket.
    pub control_path: String,
    /// Allowance in milliseconds.
    pub timeout_ms: u64,
    /// When the wait ends.
    pub deadline: u128,
    /// The reason of the last failed attempt.
    pub last_error: Option<String>,
}

impl InitWait {
    /// The reason of the last failed attempt, or that there was none.
    pub open spec fn reason(&self) -> Seq<char> {
        match self.last_error {
            Some(e) => e@,
            None => "no connection attempts were made"@,
        }
    }

    /// Whether a step is due at a moment between attempts.
    pub open spec fn due(&self, now: u64, step: InitStep) -> bool {
        if now < self.deadline {
            step is Attempt
        } else {
            step matches InitStep::Failed(
                DriverError::InitTimeout { socket_path, timeout_ms, last_error },
            ) && socket_path == self.control_path && timeout_ms == self.timeout_ms && last_error@
                == self.reason()
        }
    }

    fn look(&self, now: u64) -> (r: InitStep)
        ensures
            self.due(now, r),
    {
        if (now as u128) < self.deadline {
            InitStep::Attempt
        } else {
            let reason = match &self.last_error {
                Some(e) => e.clone(),
                None => "no connection attempts were made".to_owned(),
            };
            InitStep::Failed(
                DriverError::InitTimeout {
                    socket_path: self.control_path.clone(),
                    timeout_ms: self.timeout_ms,
                    last_error: reason,
                },
            )
        }
    }

    /// Begin to wait for the bridge, unless there is a connection.
    pub fn ensure_init(
        driver: &Driver,
        socket_path: &str,
        chosen: Option<&str>,
        timeout_ms: u64,
        now: u64,
    ) -> (r: (Self, InitStep))
        ensures
            r.0.control_path@ == control_path(socket_path@, some_text(chosen)),
            r.0.timeout_ms == timeout_ms,
            r.0.deadline == now + timeout_ms * NANOS_PER_MS,
            r.0.last_error is None,
            if driver.conn is Some {
                r.1 is Ready
            } else {
                r.0.due(now, r.1)
            },
    {
        let wait = InitWait {
            control_path: control_socket_path(socket_path, chosen),
            timeout_ms,
            deadline: now as u128 + ms(timeout_ms),
            last_error: None,
        };
        if driver.is_ready() {
            return (wait, InitStep::Ready);
        }
        let step = wait.look(now);
        (wait, step)
    }

    /// Take in what came of an attempt or a pause.
    pub fn next(&mut self, driver: &mut Driver, event: InitEvent, now: u64) -> (r: InitStep)
        ensures
            final(self).control_path == old(self).control_path,
            final(self).timeout_ms == old(self).timeout_ms,
            final(self).deadline == old(self).deadline,
            match event {
                InitEvent::Reached(client) => final(self).last_error == old(self).last_error
                    && final(driver).conn == Some(client) && r is Ready,
                InitEvent::Missed(e) => (final(self).last_error matches Some(why) && why@
                    == init_reason(e)) && final(driver).conn is None && r == InitStep::Pause(
                    FAST_DELAY_MS,
                ),
                InitEvent::Rested => *final(self) == *old(self) && *final(driver) == *old(driver)
                    && old(self).due(now, r),
            },
    {
        match event {
            InitEvent::Reached(client) => {
                driver.conn = Some(client);
                InitStep::Ready
            },
            InitEvent::Missed(e) => {
                self.last_error = Some(describe_init_error(&e));
                driver.reset();
                InitStep::Pause(FAST_DELAY_MS)
            },
            InitEvent::Rested => self.look(now),
        }
    }
}

/// Whether a text comes before another in alphabetical order.
pub open spec fn before_text(a: Seq<char>, b: Seq<char>) -> bool
    decreases b.len(),
{
    if b.len() == 0 {
        false
    } else if a.len() == 0 {
        true
    } else if a[0] != b[0] {
        a[0] < b[0]
    } else {
        before_text(a.drop_first(), b.drop_first())
    }
}

proof fn before_text_is_total(a: Seq<char>, b: Seq<char>)
    ensures
        before_text(a, b) || before_text(b, a) || a == b,
    decreases b.len(),
{
    if a.len() > 0 && b.len() > 0 && a[0] == b[0] {
        before_text_is_total(a.drop_first(), b.drop_first());
        if a.drop_first() == b.drop_first() {
            assert(a =~= seq![a[0]] + a.drop_first());
            assert(b =~= seq![b[0]] + b.drop_first());
        }
    } else if a.len() == 0 && b.len() == 0 {
        assert(a =~= b);
    }
}

proof fn before_text_is_transitive(a: Seq<char>, b: Seq<char>, c: Seq<char>)
    requires
        before_text(a, b),
        before_text(b, c),
    ensures
        before_text(a, c),
    decreases c.len(),
{
    if a.len() > 0 && b.len() > 0 && c.len() > 0 && a[0] == b[0] && b[0] == c[0] {
        before_text_is_transitive(a.drop_first(), b.drop_first(), c.drop_first());
    }
}

/// Whether a text comes before another in alphabetical order.
pub fn text_before(a: &str, b: &str) -> (r: bool)
    ensures
        r <==> before_text(a@, b@),
{
    let x = chars_of(a);
    let y = chars_of(b);
    let mut i: usize = 0;
    assert(x@.skip(0) =~= x@);
    assert(y@.skip(0) =~= y@);
    while i < x.len() && i < y.len() && x[i] == y[i]
        invariant
            i <= x@.len(),
            i <= y@.len(),
            before_text(x@, y@) == before_text(x@.skip(i as int), y@.skip(i as int)),
        decreases x@.len() - i,
    {
        assert(x@.skip(i as int).drop_first() =~= x@.skip(i + 1));
        assert(y@.skip(i as int).drop_first() =~= y@.skip(i + 1));
        i = i + 1;
    }
    if i >= y.len() {
        false
    } else if i >= x.len() {
        true
    } else {
        x[i] < y[i]
    }
}

/// Whether texts stand in alphabetical order, none of them twice.
pub open spec fn in_order(items: Seq<Seq<char>>) -> bool {
    forall|i: int, j: int| 0 <= i < j < items.len() ==> before_text(#[trigger] items[i], #[trigger] items[j])
}

/// The texts that are not among others.
pub open spec fn without(items: Seq<Seq<char>>, gone: Seq<Seq<char>>) -> Seq<Seq<char>>
    decreases items.len(),
{
    if items.len() == 0 {
        Seq::empty()
    } else if gone.contains(items.last()) {
        without(items.drop_last(), gone)
    } else {
        without(items.drop_last(), gone).push(items.last())
    }
}

fn is_among(items: &Vec<String>, text: &str) -> (r: bool)
    ensures
        r <==> texts(items@).contains(text@),
{
    let mut i: usize = 0;
    while i < items.len()
        invariant
            i <= items@.len(),
            forall|j: int| 0 <= j < i ==> (#[trigger] texts(items@)[j]) != text@,
        decreases items@.len() - i,
    {
        assert(texts(items@)[i as int] == items@[i as int]@);
        if text_eq(items[i].as_str(), text) {
            return true;
        }
        i = i + 1;
    }
    false
}

fn insert_text(items: &mut Vec<String>, text: &str)
    requires
        in_order(texts(old(items)@)),
    ensures
        in_order(texts(final(items)@)),
        forall|t: Seq<char>|
            texts(final(items)@).contains(t) <==> texts(old(items)@).contains(t) || t == text@,
{
    let ghost before = texts(items@);
    let mut i: usize = 0;
    while i < items.len() && text_before(items[i].as_str(), text)
        invariant
            i <= items@.len(),
            before == texts(items@),
            forall|j: int| 0 <= j < i ==> before_text(#[trigger] before[j], text@),
        decreases items@.len() - i,
    {
        assert(before[i as int] == items@[i as int]@);
        i = i + 1;
    }
    if i < items.len() {
        assert(before[i as int] == items@[i as int]@);
        if text_eq(items[i].as_str(), text) {
            assert(before.contains(text@));
            return ;
        }
        proof {
            before_text_is_total(before[i as int], text@);
        }
    }
    let word = text.to_owned();
    items.insert(i, word);
    let ghost after = texts(items@);
    proof {
        assert(after =~= before.insert(i as int, text@));
        assert forall|a: int, b: int| 0 <= a < b < after.len() implies before_text(
            #[trigger] after[a],
            #[trigger] after[b],
        ) by {
            if b < i {
                assert(before_text(before[a], before[b]));
            } else if b == i {
            } else if a == i {
                if b - 1 > i {
                    assert(before_text(before[i as int], before[b - 1]));
                    before_text_is_transitive(text@, before[i as int], before[b - 1]);
                }
            } else if a < i {
                assert(before_text(before[a], before[b - 1]));
            } else {
                assert(before_text(before[a - 1], before[b - 1]));
            }
        }
        assert forall|t: Seq<char>| after.contains(t) <==> before.contains(t) || t == text@ by {
            if after.contains(t) {
                let k = choose|k: int| 0 <= k < after.len() && after[k] == t;
                if k < i {
                    assert(before[k] == t);
                } else if k > i {
                    assert(before[k - 1] == t);
                }
            }
            if before.contains(t) {
                let k = choose|k: int| 0 <= k < before.len() && before[k] == t;
                if k < i {
                    assert(after[k] == t);
                } else {
                    assert(after[k + 1] == t);
                }
            }
            assert(after[i as int] == text@);
        }
    }
}

/// A binding without the quotes around it.
pub open spec fn unquoted(raw: Seq<char>) -> Seq<char> {
    trimmed_end(trimmed_start(raw, is_quote()), is_quote())
}

/// Whether a character is a quote.
pub open spec fn is_quote() -> spec_fn(char) -> bool {
    |c: char| c == '"'
}

/// What to do while bindings are awaited.
#[derive(Debug)]
pub enum IdentStep {
    /// Ask for the bindings.
    Fetch,
    /// Pause for milliseconds.
    Pause(u64),
    /// All bindings are there.
    Done,
    /// They did not appear, or could not be asked for.
    Failed(DriverError),
}

/// What was learned while bindings are awaited.
#[derive(Debug)]
pub enum IdentEvent {
    /// The bindings, by their canonical names, or why they could not be asked for.
    Bindings(Result<Vec<String>, DriverError>),
    /// The pause is over.
    Rested,
}

/// A wait for bindings.
#[derive(Debug)]
pub struct IdentWait {
    /// The bindings that are missing, in alphabetical order.
    pub remaining: Vec<String>,
    /// Allowance in milliseconds.
    pub timeout_ms: u64,
    /// When the wait ends.
    pub deadline: u128,
}

impl IdentWait {
    /// Whether a step is due at a moment between requests.
    pub open spec fn due(&self, now: u64, step: IdentStep) -> bool {
        if now < self.deadline {
            step is Fetch
        } else {
            step matches IdentStep::Failed(DriverError::BindingTimeout { ident, timeout_ms })
                && ident@ == joined(texts(self.remaining@), ", "@) && timeout_ms == self.timeout_ms
        }
    }

    fn look(&self, now: u64) -> (r: IdentStep)
        ensures
            self.due(now, r),
    {
        if (now as u128) < self.deadline {
            IdentStep::Fetch
        } else {
            IdentStep::Failed(
                DriverError::BindingTimeout {
                    ident: join(&self.remaining, ", "),
                    timeout_ms: self.timeout_ms,
                },
            )
        }
    }

    /// Begin to wait for bindings, by their canonical names.
    pub fn wait_for_idents(idents: &Vec<String>, timeout_ms: u64, now: u64) -> (r: (
        Self,
        IdentStep,
    ))
        ensures
            r.0.timeout_ms == timeout_ms,
            r.0.deadline == now + timeout_ms * NANOS_PER_MS,
            in_order(texts(r.0.remaining@)),
            forall|t: Seq<char>|
                texts(r.0.remaining@).contains(t) <==> texts(idents@).contains(t),
            if idents@.len() == 0 {
                r.1 is Done
            } else {
                r.0.due(now, r.1)
            },
    {
        let mut remaining: Vec<String> = Vec::new();
        let mut i: usize = 0;
        while i < idents.len()
            invariant
                i <= idents@.len(),
                in_order(texts(remaining@)),
                forall|t: Seq<char>|
                    texts(remaining@).contains(t) <==> texts(idents@).take(i as int).contains(t),
            decreases idents@.len() - i,
        {
            let ghost all = texts(idents@);
            insert_text(&mut remaining, idents[i].as_str());
            proof {
                assert(all[i as int] == idents@[i as int]@);
                assert forall|t: Seq<char>|
                    texts(remaining@).contains(t) <==> all.take(i + 1).contains(t) by {
                    let shorter = all.take(i as int);
                    let longer = all.take(i + 1);
                    if longer.contains(t) {
                        let k = choose|k: int| 0 <= k < longer.len() && longer[k] == t;
                        if k < i {
                            assert(shorter[k] == t);
                        }
                    }
                    if shorter.contains(t) {
                        let k = choose|k: int| 0 <= k < shorter.len() && shorter[k] == t;
                        assert(longer[k] == t);
                    }
                    assert(longer[i as int] == idents@[i as int]@);
                }
            }
            i = i + 1;
        }
        assert(texts(idents@).take(i as int) =~= texts(idents@));
        let wait = IdentWait { remaining, timeout_ms, deadline: now as u128 + ms(timeout_ms) };
        if idents.len() == 0 {
            return (wait, IdentStep::Done);
        }
        let step = wait.look(now);
        (wait, step)
    }

    /// The name that a binding goes by before it is brought to its canonical form.
    pub fn binding_name(raw: &str) -> (r: String)
        ensures
            r@ == unquoted(raw@),
    {
        trim_char(raw, '"')
    }

    /// Take in bindings or the end of a pause.
    pub fn next(&mut self, event: IdentEvent, now: u64) -> (r: IdentStep)
        ensures
            final(self).timeout_ms == old(self).timeout_ms,
            final(self).deadline == old(self).deadline,
            match event {
                IdentEvent::Bindings(Ok(bindings)) => {
                    &&& texts(final(self).remaining@) == without(
                        texts(old(self).remaining@),
                        texts(bindings@),
                    )
                    &&& if final(self).remaining@.len() == 0 {
                        r is Done
                    } else {
                        r == IdentStep::Pause(RETRY_DELAY_MS)
                    }
                },
                IdentEvent::Bindings(Err(e)) => *final(self) == *old(self) && r
                    == IdentStep::Failed(e),
                IdentEvent::Rested => *final(self) == *old(self) && old(self).due(now, r),
            },
    {
        match event {
            IdentEvent::Bindings(Ok(bindings)) => {
                let mut left: Vec<String> = Vec::new();
                let mut i: usize = 0;
                let ghost all = texts(self.remaining@);
                while i < self.remaining.len()
                    invariant
                        i <= self.remaining@.len(),
                        self.timeout_ms == old(self).timeout_ms,
                        self.deadline == old(self).deadline,
                        all == texts(self.remaining@),
                        texts(left@) == without(all.take(i as int), texts(bindings@)),
                    decreases self.remaining@.len() - i,
                {
                    assert(all.take(i + 1).drop_last() =~= all.take(i as int));
                    assert(all[i as int] == self.remaining@[i as int]@);
                    if !is_among(&bindings, self.remaining[i].as_str()) {
                        let ghost kept = left@;
                        left.push(self.remaining[i].clone());
                        assert(texts(left@) =~= texts(kept).push(all[i as int]));
                    }
                    i = i + 1;
                }
                assert(all.take(i as int) =~= all);
                self.remaining = left;
                if self.remaining.len() == 0 {
                    IdentStep::Done
                } else {
                    IdentStep::Pause(RETRY_DELAY_MS)
                }
            },
            IdentEvent::Bindings(Err(e)) => IdentStep::Failed(e),
            IdentEvent::Rested => self.look(now),
        }
    }
}

/// What is left of the missing bindings is exactly what was not among those seen.
pub proof fn only_unseen_bindings_stay_missing(
    items: Seq<Seq<char>>,
    gone: Seq<Seq<char>>,
    t: Seq<char>,
)
    ensures
        without(items, gone).contains(t) <==> items.contains(t) && !gone.contains(t),
    decreases items.len(),
{
    if items.len() > 0 {
        let rest = items.drop_last();
        only_unseen_bindings_stay_missing(rest, gone, t);
        if items.contains(t) {
            let k = choose|k: int| 0 <= k < items.len() && items[k] == t;
            if k < rest.len() {
                assert(rest[k] == t);
            }
        }
        if rest.contains(t) {
            let k = choose|k: int| 0 <= k < rest.len() && rest[k] == t;
            assert(items[k] == t);
        }
        assert(items[items.len() - 1] == items.last());
        if !gone.contains(items.last()) {
            let kept = without(rest, gone);
            assert(kept.push(items.last())[kept.len() as int] == items.last());
            if kept.contains(t) {
                let k = choose|k: int| 0 <= k < kept.len() && kept[k] == t;
                assert(kept.push(items.last())[k] == t);
            }
        }
    }
}

/// The missing bindings stay in alphabetical order.
pub proof fn missing_bindings_stay_in_order(items: Seq<Seq<char>>, gone: Seq<Seq<char>>)
    requires
        in_order(items),
    ensures
        in_order(without(items, gone)),
    decreases items.len(),
{
    if items.len() > 0 {
        let rest = items.drop_last();
        assert forall|i: int, j: int| 0 <= i < j < rest.len() implies before_text(
            #[trigger] rest[i],
            #[trigger] rest[j],
        ) by {
            assert(before_text(items[i], items[j]));
        }
        missing_bindings_stay_in_order(rest, gone);
        if !gone.contains(items.last()) {
            let kept = without(rest, gone);
            let all = kept.push(items.last());
            assert forall|i: int, j: int| 0 <= i < j < all.len() implies before_text(
                #[trigger] all[i],
                #[trigger] all[j],
            ) by {
                if j == kept.len() {
                    only_unseen_bindings_stay_missing(rest, gone, kept[i]);
                    assert(kept.contains(kept[i]));
                    let k = choose|k: int| 0 <= k < rest.len() && rest[k] == kept[i];
                    assert(before_text(items[k], items[items.len() - 1]));
                } else {
                    assert(before_text(kept[i], kept[j]));
                }
            }
        }
    }
}

/// An event that comes during a shutdown, while there is room for it, is found by the
/// comparison that ends the shutdown.
pub proof fn events_during_a_shutdown_are_found(
    before: BridgeClient,
    reply: BridgeReply,
    event: BridgeEvent,
    after: BridgeClient,
)
    requires
        before.events@.len() < EVENT_BUFFER_CAPACITY,
        took_event(before, reply, event, after),
    ensures
        after.events@.len() > before.events@.len(),
        after.events@[before.events@.len() as int].payload == event,
{
}

} // verus!
