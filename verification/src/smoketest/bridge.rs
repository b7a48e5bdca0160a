//! The bridge to the UI: one command at a time, each acknowledged and answered,
//! with events in between and reconnects when the connection drops.

use vstd::prelude::*;
use vstd::string::*;

use crate::smoketest::bridge_dump::{dump_event, dump_response, event_dump, response_dump};
use crate::smoketest::config::FAST_DELAY_MS;
use crate::smoketest::error::{connection_lost, DriverError, IoKind};
use crate::text::{dec, decimal, option_dump, option_text};

verus! {

/// Most reconnects for one call.
pub const MAX_RECONNECT_ATTEMPTS: u32 = 3;

/// Most attempts to connect in one reconnect.
pub const CONNECT_STEPS: u32 = 3;

/// Most events that are kept.
pub const EVENT_BUFFER_CAPACITY: usize = 128;

/// Idle timer of the server.
#[derive(Debug, Clone, Copy, PartialEq, Eq, Structural)]
pub struct IdleTimer {
    /// How long the server stays idle, in seconds.
    pub timeout_secs: u64,
    /// Whether the timer is armed.
    pub armed: bool,
    /// When it fires, in milliseconds.
    pub deadline_ms: Option<u64>,
    /// How many clients are connected.
    pub clients_connected: usize,
}

/// A notification that is pending.
#[derive(Debug)]
pub struct Notification {
    /// Its title.
    pub title: String,
    /// Its text.
    pub text: String,
}

/// What the bridge says when a session begins.
#[derive(Debug)]
pub struct BridgeHandshake {
    /// Idle timer of the server.
    pub idle_timer: IdleTimer,
    /// Notifications that are pending.
    pub notifications: Vec<Notification>,
}

/// What is wrong with a handshake, where something is.
pub open spec fn handshake_complaint(h: BridgeHandshake) -> Option<Seq<char>> {
    if h.idle_timer.armed {
        Some(
            "server idle timer armed during handshake (deadline_ms="@ + option_dump(
                h.idle_timer.deadline_ms,
            ) + ")"@,
        )
    } else if h.idle_timer.clients_connected == 0 {
        Some("server reported zero connected clients during handshake"@)
    } else if h.notifications@.len() > 0 {
        Some(
            "bridge reported "@ + dec(h.notifications@.len())
                + " pending notifications, starting with '"@ + h.notifications@[0].title@ + "': "@
                + h.notifications@[0].text@,
        )
    } else {
        None
    }
}

/// Fail unless a handshake shows a clean server.
pub fn ensure_clean_handshake(h: &BridgeHandshake) -> (r: Result<(), DriverError>)
    ensures
        match handshake_complaint(*h) {
            None => r is Ok,
            Some(why) => r matches Err(DriverError::BridgeFailure { message }) && message@ == why,
        },
{
    if h.idle_timer.armed {
        let mut s = "server idle timer armed during handshake (deadline_ms=".to_owned();
        s.append(option_text(h.idle_timer.deadline_ms).as_str());
        s.append(")");
        return Err(DriverError::BridgeFailure { message: s });
    }
    if h.idle_timer.clients_connected == 0 {
        return Err(
            DriverError::BridgeFailure {
                message: "server reported zero connected clients during handshake".to_owned(),
            },
        );
    }
    if h.notifications.len() > 0 {
        let mut s = "bridge reported ".to_owned();
        s.append(decimal(h.notifications.len() as u64).as_str());
        s.append(" pending notifications, starting with '");
        s.append(h.notifications[0].title.as_str());
        s.append("': ");
        s.append(h.notifications[0].text.as_str());
        return Err(DriverError::BridgeFailure { message: s });
    }
    Ok(())
}

/// An application that has the focus.
#[derive(Debug)]
pub struct FocusedApp {
    /// Title of its window.
    pub title: String,
    /// Its process.
    pub pid: i32,
}

impl Clone for FocusedApp {
    fn clone(&self) -> (r: Self)
        ensures
            r == *self,
    {
        FocusedApp { title: self.title.clone(), pid: self.pid }
    }
}

/// A key that the HUD shows.
#[derive(Debug)]
pub struct HudKey {
    /// The key.
    pub ident: String,
    /// What it does.
    pub description: String,
    /// Whether it opens a menu.
    pub is_mode: bool,
}

impl Clone for HudKey {
    fn clone(&self) -> (r: Self)
        ensures
            r == *self,
    {
        HudKey {
            ident: self.ident.clone(),
            description: self.description.clone(),
            is_mode: self.is_mode,
        }
    }
}

fn clone_keys(keys: &Vec<HudKey>) -> (r: Vec<HudKey>)
    ensures
        r@ == keys@,
{
    let mut out: Vec<HudKey> = Vec::new();
    let mut i: usize = 0;
    while i < keys.len()
        invariant
            i <= keys@.len(),
            out@ == keys@.take(i as int),
        decreases keys@.len() - i,
    {
        out.push(keys[i].clone());
        assert(out@ =~= keys@.take(i + 1));
        i = i + 1;
    }
    assert(keys@.take(i as int) =~= keys@);
    out
}

/// An event of the bridge.
#[derive(Debug)]
pub enum BridgeEvent {
    /// The HUD was updated.
    Hud {
        /// Depth of the menu.
        depth: usize,
        /// Title of the parent menu.
        parent_title: Option<String>,
        /// The keys that the HUD shows.
        keys: Vec<HudKey>,
        /// The display that is active, where it is named.
        active_display: Option<u32>,
    },
    /// The focus has changed.
    WorldFocus {
        /// The application that has it.
        app: Option<FocusedApp>,
        /// State of the world service.
        reconcile_seq: u64,
    },
}

fn clone_text(t: &Option<String>) -> (r: Option<String>)
    ensures
        r == *t,
{
    match t {
        Some(s) => Some(s.clone()),
        None => None,
    }
}

/// An event with its number and time.
#[derive(Debug)]
pub struct BridgeEventRecord {
    /// Number of the event.
    pub id: u64,
    /// When it was sent, in milliseconds.
    pub timestamp_ms: u64,
    /// The event.
    pub payload: BridgeEvent,
}

/// The last update of the HUD.
#[derive(Debug)]
pub struct HudSnapshot {
    /// Number of the event.
    pub event_id: u64,
    /// When it was sent, in milliseconds.
    pub received_ms: u64,
    /// Depth of the menu.
    pub depth: usize,
    /// Title of the parent menu.
    pub parent_title: Option<String>,
    /// The keys that the HUD shows.
    pub keys: Vec<HudKey>,
    /// The display that is active, where it is named.
    pub active_display: Option<u32>,
}

/// The last change of the focus.
#[derive(Debug)]
pub struct WorldFocusSnapshot {
    /// Number of the event.
    pub event_id: u64,
    /// When it was sent, in milliseconds.
    pub received_ms: u64,
    /// The application that has the focus.
    pub app: Option<FocusedApp>,
    /// State of the world service.
    pub reconcile_seq: u64,
}

/// A command for the bridge.
#[derive(Debug)]
pub enum BridgeRequest {
    /// Ask for a handshake.
    Ping,
    /// Load a config.
    SetConfig {
        /// Where it is.
        path: String,
    },
    /// Inject a key.
    InjectKey {
        /// The key.
        ident: String,
        /// Whether it goes down.
        down: bool,
    },
    /// Ask for the bindings.
    GetBindings,
    /// Ask for the depth of the menu.
    GetDepth,
    /// Ask for a snapshot of the world.
    GetWorldSnapshot,
    /// Wait for a state of the world service.
    WaitForWorldSeq {
        /// The state.
        target: u64,
        /// Allowance in milliseconds.
        timeout_ms: u64,
    },
    /// Shut the server down.
    Shutdown,
}

impl Clone for BridgeRequest {
    fn clone(&self) -> (r: Self)
        ensures
            r == *self,
    {
        match self {
            BridgeRequest::Ping => BridgeRequest::Ping,
            BridgeRequest::SetConfig { path } => BridgeRequest::SetConfig { path: path.clone() },
            BridgeRequest::InjectKey { ident, down } => BridgeRequest::InjectKey {
                ident: ident.clone(),
                down: *down,
            },
            BridgeRequest::GetBindings => BridgeRequest::GetBindings,
            BridgeRequest::GetDepth => BridgeRequest::GetDepth,
            BridgeRequest::GetWorldSnapshot => BridgeRequest::GetWorldSnapshot,
            BridgeRequest::WaitForWorldSeq { target, timeout_ms } =>
                BridgeRequest::WaitForWorldSeq { target: *target, timeout_ms: *timeout_ms },
            BridgeRequest::Shutdown => BridgeRequest::Shutdown,
        }
    }
}

/// What the bridge answers.
#[derive(Debug)]
pub enum BridgeResponse {
    /// The command was queued.
    Ack {
        /// How many commands are queued.
        queued: usize,
    },
    /// The command is done.
    Okay,
    /// The command has failed.
    Failure {
        /// Why.
        message: String,
    },
    /// A session begins.
    Handshake(BridgeHandshake),
    /// The bindings.
    Bindings(Vec<String>),
    /// The depth of the menu.
    Depth(usize),
    /// The state of the world service.
    WorldSeq(u64),
    /// A snapshot of the world, as text.
    Snapshot(String),
    /// An event.
    Event(BridgeEvent),
}

/// A reply of the bridge.
#[derive(Debug)]
pub struct BridgeReply {
    /// The command that is answered, or the number of the event.
    pub command_id: u64,
    /// When it was sent, in milliseconds.
    pub timestamp_ms: u64,
    /// The answer.
    pub response: BridgeResponse,
}

/// What a client of the bridge knows.
#[derive(Debug)]
pub struct BridgeClient {
    /// The socket.
    pub socket_path: String,
    /// Number of the next command.
    pub next_command_id: u64,
    /// How long an acknowledgement may take, in milliseconds.
    pub ack_timeout_ms: u64,
    /// The last events, oldest first.
    pub events: Vec<BridgeEventRecord>,
    /// How many events were observed since the cache was cleared.
    pub observed: usize,
    /// The last update of the HUD.
    pub latest_hud: Option<HudSnapshot>,
    /// The last change of the focus.
    pub latest_focus: Option<WorldFocusSnapshot>,
    /// The last handshake.
    pub handshake: Option<BridgeHandshake>,
}

/// The events with one more; the oldest leaves when there is no room.
pub open spec fn with_event(
    events: Seq<BridgeEventRecord>,
    record: BridgeEventRecord,
) -> Seq<BridgeEventRecord> {
    if events.len() >= EVENT_BUFFER_CAPACITY {
        events.drop_first().push(record)
    } else {
        events.push(record)
    }
}

/// A count with one more, as far as counts go.
pub open spec fn one_more(n: usize) -> usize {
    if n < usize::MAX {
        (n + 1) as usize
    } else {
        n
    }
}

/// The first of the last `fresh` events that is still remembered, in full.
pub open spec fn shown_since(events: Seq<BridgeEventRecord>, fresh: int) -> Seq<char> {
    if events.len() == 0 {
        "(forgotten)"@
    } else if fresh <= events.len() {
        event_dump(events[events.len() - fresh].payload)
    } else {
        event_dump(events[0].payload)
    }
}

/// Whether the last update of the HUD, or the last change of the focus, is that of an
/// event, and the other one is as before.
pub open spec fn remembers(
    before: BridgeClient,
    id: u64,
    timestamp_ms: u64,
    event: BridgeEvent,
    after: BridgeClient,
) -> bool {
    match event {
        BridgeEvent::Hud { depth, parent_title, keys, active_display } => {
            &&& after.latest_focus == before.latest_focus
            &&& after.latest_hud matches Some(hud)
            &&& hud.event_id == id
            &&& hud.received_ms == timestamp_ms
            &&& hud.depth == depth
            &&& hud.parent_title == parent_title
            &&& hud.active_display == active_display
            &&& hud.keys@ == keys@
        },
        BridgeEvent::WorldFocus { app, reconcile_seq } => {
            &&& after.latest_hud == before.latest_hud
            &&& after.latest_focus == Some(
                WorldFocusSnapshot { event_id: id, received_ms: timestamp_ms, app, reconcile_seq },
            )
        },
    }
}

impl BridgeClient {
    /// A client of a socket that knows nothing yet.
    pub fn new(socket_path: String, ack_timeout_ms: u64) -> (r: Self)
        ensures
            r.socket_path == socket_path,
            r.ack_timeout_ms == ack_timeout_ms,
            r.next_command_id == 0,
            r.cleared(),
    {
        BridgeClient {
            socket_path,
            next_command_id: 0,
            ack_timeout_ms,
            events: Vec::new(),
            observed: 0,
            latest_hud: None,
            latest_focus: None,
            handshake: None,
        }
    }

    /// Whether nothing is remembered.
    pub open spec fn cleared(&self) -> bool {
        &&& self.events@.len() == 0
        &&& self.observed == 0
        &&& self.latest_hud is None
        &&& self.latest_focus is None
        &&& self.handshake is None
    }

    /// Whether two clients differ in nothing but what they remember.
    pub open spec fn same_link(&self, other: &BridgeClient) -> bool {
        &&& self.socket_path == other.socket_path
        &&& self.ack_timeout_ms == other.ack_timeout_ms
        &&& self.next_command_id == other.next_command_id
    }

    /// Forget events, snapshots and the handshake.
    pub fn clear_cached_state(&mut self)
        ensures
            final(self).cleared(),
            final(self).same_link(old(self)),
    {
        self.events.clear();
        self.observed = 0;
        self.latest_hud = None;
        self.latest_focus = None;
        self.handshake = None;
    }

    /// Number of the command after this one.
    pub open spec fn next_id(id: u64) -> u64 {
        if id == u64::MAX {
            0
        } else {
            (id + 1) as u64
        }
    }

    /// Go on to the next command.
    pub fn bump_command_id(&mut self)
        ensures
            final(self).next_command_id == BridgeClient::next_id(old(self).next_command_id),
            final(self).socket_path == old(self).socket_path,
            final(self).ack_timeout_ms == old(self).ack_timeout_ms,
            final(self).events == old(self).events,
            final(self).observed == old(self).observed,
            final(self).latest_hud == old(self).latest_hud,
            final(self).latest_focus == old(self).latest_focus,
            final(self).handshake == old(self).handshake,
    {
        if self.next_command_id == u64::MAX {
            self.next_command_id = 0;
        } else {
            self.next_command_id = self.next_command_id + 1;
        }
    }

    /// Remember an event.
    pub fn record_event(&mut self, id: u64, timestamp_ms: u64, event: BridgeEvent)
        requires
            old(self).events@.len() <= EVENT_BUFFER_CAPACITY,
        ensures
            final(self).same_link(old(self)),
            final(self).handshake == old(self).handshake,
            final(self).events@ == with_event(
                old(self).events@,
                BridgeEventRecord { id, timestamp_ms, payload: event },
            ),
            final(self).events@.len() <= EVENT_BUFFER_CAPACITY,
            final(self).observed == one_more(old(self).observed),
            remembers(*old(self), id, timestamp_ms, event, *final(self)),
    {
        if self.events.len() >= EVENT_BUFFER_CAPACITY {
            let _ = self.events.remove(0);
            assert(self.events@ =~= old(self).events@.drop_first());
        }
        match &event {
            BridgeEvent::Hud { depth, parent_title, keys, active_display } => {
                self.latest_hud = Some(
                    HudSnapshot {
                        event_id: id,
                        received_ms: timestamp_ms,
                        depth: *depth,
                        parent_title: clone_text(parent_title),
                        active_display: *active_display,
                        keys: clone_keys(keys),
                    },
                );
            },
            BridgeEvent::WorldFocus { app, reconcile_seq } => {
                let copy = match app {
                    Some(a) => Some(a.clone()),
                    None => None,
                };
                self.latest_focus = Some(
                    WorldFocusSnapshot {
                        event_id: id,
                        received_ms: timestamp_ms,
                        app: copy,
                        reconcile_seq: *reconcile_seq,
                    },
                );
            },
        }
        self.events.push(BridgeEventRecord { id, timestamp_ms, payload: event });
        if self.observed < usize::MAX {
            self.observed = self.observed + 1;
        }
    }

    /// Take the events out.
    pub fn drain_events(&mut self) -> (r: Vec<BridgeEventRecord>)
        ensures
            r@ == old(self).events@,
            final(self).events@.len() == 0,
            final(self).observed == old(self).observed,
            final(self).same_link(old(self)),
            final(self).latest_hud == old(self).latest_hud,
            final(self).latest_focus == old(self).latest_focus,
            final(self).handshake == old(self).handshake,
    {
        let mut out: Vec<BridgeEventRecord> = Vec::new();
        out.append(&mut self.events);
        out
    }

    /// How many events were observed so far, whether or not they are still remembered.
    pub fn event_buffer_len(&self) -> (r: usize)
        ensures
            r == self.observed,
    {
        self.observed
    }

    /// Fail when an event has come since `baseline` were observed. The failure shows the
    /// first of them that is still remembered.
    pub fn assert_no_new_events_since(&self, baseline: usize) -> (r: Result<(), DriverError>)
        ensures
            r is Ok <==> self.observed <= baseline,
            r is Err ==> (r matches Err(DriverError::PostShutdownMessage { message }) && message@
                == "bridge event observed after shutdown: "@ + shown_since(
                self.events@,
                self.observed - baseline,
            )),
    {
        if self.observed <= baseline {
            return Ok(());
        }
        let fresh: usize = self.observed - baseline;
        let mut s = "bridge event observed after shutdown: ".to_owned();
        if self.events.len() == 0 {
            s.append("(forgotten)");
        } else {
            let first: usize = if fresh <= self.events.len() {
                self.events.len() - fresh
            } else {
                0
            };
            s.append(dump_event(&self.events[first].payload).as_str());
        }
        Err(DriverError::PostShutdownMessage { message: s })
    }
}

/// Where a call stands.
#[derive(Debug, Clone, Copy, PartialEq, Eq, Structural)]
pub enum CallPhase {
    /// The command is sent.
    Sending,
    /// Its acknowledgement is awaited.
    AwaitingAck,
    /// Its answer is awaited.
    AwaitingAnswer,
    /// The connection is made anew.
    Connecting {
        /// How many attempts have failed.
        failed: u32,
        /// Pause before the attempt in milliseconds.
        backoff_ms: u64,
    },
}

/// What was learned during a call.
#[derive(Debug)]
pub enum CallEvent {
    /// The command was sent.
    Sent,
    /// A reply has come.
    Reply(BridgeReply),
    /// Reading or writing has failed.
    LinkFailed(IoKind, String),
    /// What was read makes no sense, or the other end is closed.
    Garbled(String),
    /// The connection is made.
    Connected,
    /// The connection could not be made.
    Unreachable(String),
}

/// What to do during a call.
#[derive(Debug)]
pub enum CallAction {
    /// Send a command.
    Send {
        /// Its number.
        command_id: u64,
        /// The command.
        request: BridgeRequest,
    },
    /// Read a reply, within the time for an acknowledgement or without a limit.
    ReadReply {
        /// Whether there is a limit.
        limited: bool,
    },
    /// Pause for milliseconds, then connect.
    PauseAndConnect(u64),
    /// The call is over.
    Finish(Result<BridgeResponse, DriverError>),
}

/// A call: the command, and the handshakes that its reconnects have begun.
#[derive(Debug)]
pub struct Call {
    /// The command.
    pub request: BridgeRequest,
    /// Whether the answer is a handshake that has to be clean.
    pub greeting: bool,
    /// Reconnects so far, for the command and for each handshake in turn.
    pub attempts: Vec<u32>,
    /// Where the call stands.
    pub phase: CallPhase,
}

/// Pause before the first attempt of a reconnect.
pub open spec fn first_backoff(attempt: u32) -> u64 {
    (FAST_DELAY_MS * attempt) as u64
}

/// A pause twice as long.
pub open spec fn doubled(ms: u64) -> u64 {
    if ms * 2 > u64::MAX {
        u64::MAX
    } else {
        (ms * 2) as u64
    }
}

/// A pause of at least one millisecond.
pub open spec fn at_least_one(ms: u64) -> u64 {
    if ms == 0 {
        1
    } else {
        ms
    }
}

impl Call {
    /// Whether the call can be carried on.
    pub open spec fn valid(&self) -> bool {
        &&& self.attempts@.len() > 0
        &&& forall|i: int|
            0 <= i < self.attempts@.len() ==> #[trigger] self.attempts@[i]
                <= MAX_RECONNECT_ATTEMPTS
        &&& self.phase matches CallPhase::Connecting { failed, .. } ==> failed < CONNECT_STEPS
    }

    /// Whether a handshake is under way.
    pub open spec fn in_handshake(&self) -> bool {
        self.attempts@.len() > 1 || self.greeting
    }

    /// Whether the command at hand may reconnect once more.
    pub open spec fn may_reconnect(&self) -> bool {
        self.attempts@.last() < MAX_RECONNECT_ATTEMPTS
    }

    /// Begin a call.
    pub fn begin(client: &BridgeClient, request: BridgeRequest, greeting: bool) -> (r: (
        Self,
        CallAction,
    ))
        ensures
            r.0.request == request,
            r.0.greeting == greeting,
            r.0.attempts@ == seq![0u32],
            r.0.phase is Sending,
            r.0.valid(),
            r.1 == (CallAction::Send { command_id: client.next_command_id, request }),
    {
        let mut attempts: Vec<u32> = Vec::new();
        attempts.push(0);
        let copy = request.clone();
        (
            Call { request, greeting, attempts, phase: CallPhase::Sending },
            CallAction::Send { command_id: client.next_command_id, request: copy },
        )
    }

    /// The command at hand.
    pub open spec fn current(&self) -> BridgeRequest {
        if self.attempts@.len() > 1 {
            BridgeRequest::Ping
        } else {
            self.request
        }
    }

    fn send(&mut self, client: &BridgeClient) -> (r: CallAction)
        requires
            old(self).valid(),
        ensures
            final(self).valid(),
            final(self).request == old(self).request,
            final(self).greeting == old(self).greeting,
            final(self).attempts == old(self).attempts,
            final(self).phase is Sending,
            r == (CallAction::Send {
                command_id: client.next_command_id,
                request: old(self).current(),
            }),
    {
        self.phase = CallPhase::Sending;
        let request = if self.attempts.len() > 1 {
            BridgeRequest::Ping
        } else {
            self.request.clone()
        };
        CallAction::Send { command_id: client.next_command_id, request }
    }

    /// Whether a failure of the link is followed by a reconnect: the connection is
    /// gone, and the command has reconnects left.
    pub open spec fn reconnects_on(&self, kind: IoKind) -> bool {
        (kind is BrokenPipe || kind is ConnectionReset || kind is ConnectionAborted)
            && self.may_reconnect()
    }

    fn link_failed(&mut self, kind: IoKind, reason: String) -> (r: CallAction)
        requires
            old(self).valid(),
        ensures
            final(self).valid(),
            final(self).request == old(self).request,
            final(self).greeting == old(self).greeting,
            if old(self).reconnects_on(kind) {
                let attempt = (old(self).attempts@.last() + 1) as u32;
                &&& final(self).attempts@ == old(self).attempts@.drop_last().push(attempt)
                &&& final(self).phase == (CallPhase::Connecting {
                    failed: 0,
                    backoff_ms: first_backoff(attempt),
                })
                &&& r == CallAction::PauseAndConnect(at_least_one(first_backoff(attempt)))
            } else {
                &&& *final(self) == *old(self)
                &&& r == CallAction::Finish(Err(DriverError::Io { io_kind: kind, reason }))
            },
    {
        let last: usize = self.attempts.len() - 1;
        if connection_lost(kind) && self.attempts[last] < MAX_RECONNECT_ATTEMPTS {
            let attempt: u32 = self.attempts[last] + 1;
            self.attempts.set(last, attempt);
            assert(self.attempts@ =~= old(self).attempts@.drop_last().push(attempt));
            assert forall|i: int| 0 <= i < self.attempts@.len() implies #[trigger] self.attempts@[i]
                <= MAX_RECONNECT_ATTEMPTS by {
                if i < last {
                    assert(old(self).attempts@[i] <= MAX_RECONNECT_ATTEMPTS);
                }
            }
            let backoff_ms: u64 = FAST_DELAY_MS * attempt as u64;
            self.phase = CallPhase::Connecting { failed: 0, backoff_ms };
            let pause: u64 = if backoff_ms == 0 {
                1
            } else {
                backoff_ms
            };
            CallAction::PauseAndConnect(pause)
        } else {
            CallAction::Finish(Err(DriverError::Io { io_kind: kind, reason }))
        }
    }

    /// What an acknowledgement comes to: whether it is one, for the command.
    pub open spec fn ack_error(command_id: u64, reply: BridgeReply, e: DriverError) -> bool {
        if reply.command_id != command_id {
            e == (DriverError::SequenceMismatch { expected: command_id, got: reply.command_id })
        } else {
            match reply.response {
                BridgeResponse::Failure { message } => e == (DriverError::BridgeFailure { message }),
                _ => e == (DriverError::AckMissing { command_id }),
            }
        }
    }

    /// Check an acknowledgement.
    pub fn validate_ack(command_id: u64, reply: BridgeReply) -> (r: Result<(), DriverError>)
        ensures
            r is Ok <==> reply.command_id == command_id && reply.response is Ack,
            r matches Err(e) ==> Call::ack_error(command_id, reply, e),
    {
        if reply.command_id != command_id {
            return Err(
                DriverError::SequenceMismatch { expected: command_id, got: reply.command_id },
            );
        }
        match reply.response {
            BridgeResponse::Ack { .. } => Ok(()),
            BridgeResponse::Failure { message } => Err(DriverError::BridgeFailure { message }),
            _ => Err(DriverError::AckMissing { command_id }),
        }
    }

    fn greet(&mut self, client: &mut BridgeClient, response: BridgeResponse) -> (r: CallAction)
        requires
            old(self).valid(),
            old(self).in_handshake(),
        ensures
            final(self).valid(),
            final(self).request == old(self).request,
            final(self).greeting == old(self).greeting,
            final(client).same_link(old(client)),
            final(client).events == old(client).events,
            final(client).observed == old(client).observed,
            final(client).latest_hud == old(client).latest_hud,
            final(client).latest_focus == old(client).latest_focus,
            match response {
                BridgeResponse::Handshake(h) => match handshake_complaint(h) {
                    Some(why) => *final(self) == *old(self) && *final(client) == *old(client) && (
                    r matches CallAction::Finish(Err(DriverError::BridgeFailure { message }))
                        && message@ == why),
                    None => {
                        &&& if old(self).attempts@.len() > 1 {
                            &&& final(client).handshake == Some(h)
                            &&& final(self).attempts@ == old(self).attempts@.drop_last()
                            &&& final(self).phase is Sending
                            &&& r == (CallAction::Send {
                                command_id: old(client).next_command_id,
                                request: final(self).current(),
                            })
                        } else {
                            &&& final(client).handshake == Some(h)
                            &&& r == CallAction::Finish(Ok(BridgeResponse::Okay))
                        }
                    },
                },
                _ => *final(self) == *old(self) && *final(client) == *old(client) && (
                r matches CallAction::Finish(Err(DriverError::BridgeFailure { message }))
                    && message@ == "unexpected handshake response: "@ + response_dump(response)),
            },
    {
        match response {
            BridgeResponse::Handshake(h) => match ensure_clean_handshake(&h) {
                Err(e) => CallAction::Finish(Err(e)),
                Ok(()) => {
                    client.handshake = Some(h);
                    if self.attempts.len() > 1 {
                        let _ = self.attempts.pop();
                        assert(self.attempts@ =~= old(self).attempts@.drop_last());
                        assert forall|i: int|
                            0 <= i < self.attempts@.len() implies #[trigger] self.attempts@[i]
                            <= MAX_RECONNECT_ATTEMPTS by {
                            assert(old(self).attempts@[i] <= MAX_RECONNECT_ATTEMPTS);
                        }
                        self.phase = CallPhase::Sending;
                        self.send(client)
                    } else {
                        CallAction::Finish(Ok(BridgeResponse::Okay))
                    }
                },
            },
            other => {
                let mut message = "unexpected handshake response: ".to_owned();
                message.append(dump_response(&other).as_str());
                CallAction::Finish(Err(DriverError::BridgeFailure { message }))
            },
        }
    }

    fn connected(&mut self, client: &mut BridgeClient) -> (r: CallAction)
        requires
            old(self).valid(),
        ensures
            final(self).valid(),
            final(self).request == old(self).request,
            final(self).greeting == old(self).greeting,
            final(self).attempts@ == old(self).attempts@.push(0),
            final(self).phase is Sending,
            final(client).cleared(),
            final(client).next_command_id == 0,
            final(client).socket_path == old(client).socket_path,
            final(client).ack_timeout_ms == old(client).ack_timeout_ms,
            r == (CallAction::Send { command_id: 0, request: BridgeRequest::Ping }),
    {
        client.next_command_id = 0;
        client.clear_cached_state();
        self.attempts.push(0);
        assert forall|i: int| 0 <= i < self.attempts@.len() implies #[trigger] self.attempts@[i]
            <= MAX_RECONNECT_ATTEMPTS by {
            if i < old(self).attempts@.len() {
                assert(old(self).attempts@[i] <= MAX_RECONNECT_ATTEMPTS);
            }
        }
        self.phase = CallPhase::Sending;
        self.send(client)
    }

    fn unreachable(&mut self, client: &BridgeClient, reason: String, failed: u32, backoff_ms: u64) -> (r:
        CallAction)
        requires
            old(self).valid(),
            old(self).phase == (CallPhase::Connecting { failed, backoff_ms }),
        ensures
            final(self).valid(),
            final(self).request == old(self).request,
            final(self).greeting == old(self).greeting,
            final(self).attempts == old(self).attempts,
            if failed + 1 < CONNECT_STEPS {
                &&& final(self).phase == (CallPhase::Connecting {
                    failed: (failed + 1) as u32,
                    backoff_ms: doubled(backoff_ms),
                })
                &&& r == CallAction::PauseAndConnect(at_least_one(doubled(backoff_ms)))
            } else {
                &&& *final(self) == *old(self)
                &&& r == CallAction::Finish(
                    Err(DriverError::Connect { socket_path: client.socket_path, reason }),
                )
            },
    {
        if failed + 1 < CONNECT_STEPS {
            let next: u64 = if backoff_ms > u64::MAX / 2 {
                u64::MAX
            } else {
                backoff_ms * 2
            };
            self.phase = CallPhase::Connecting { failed: failed + 1, backoff_ms: next };
            let pause: u64 = if next == 0 {
                1
            } else {
                next
            };
            CallAction::PauseAndConnect(pause)
        } else {
            CallAction::Finish(
                Err(DriverError::Connect { socket_path: client.socket_path.clone(), reason }),
            )
        }
    }

    /// Take in what was learned, and say what to do next.
    ///
    /// A reply counts for the command at hand only under its number. A command that
    /// was acknowledged uses its number up once it is answered, well or not. A
    /// connection that is gone is made anew, and greeted, before the command is
    /// sent again.
    pub fn next(&mut self, client: &mut BridgeClient, event: CallEvent) -> (r: CallAction)
        requires
            old(self).valid(),
            old(client).events@.len() <= EVENT_BUFFER_CAPACITY,
        ensures
            final(self).valid(),
            final(self).request == old(self).request,
            final(self).greeting == old(self).greeting,
            final(client).socket_path == old(client).socket_path,
            final(client).ack_timeout_ms == old(client).ack_timeout_ms,
            final(client).events@.len() <= EVENT_BUFFER_CAPACITY,
            call_answer(*old(self), *old(client), event, *final(self), *final(client), r),
    {
        let id: u64 = client.next_command_id;
        match self.phase {
            CallPhase::Sending => match event {
                CallEvent::Sent => {
                    self.phase = CallPhase::AwaitingAck;
                    CallAction::ReadReply { limited: true }
                },
                CallEvent::LinkFailed(kind, reason) => self.link_failed(kind, reason),
                CallEvent::Garbled(message) => CallAction::Finish(
                    Err(DriverError::BridgeFailure { message }),
                ),
                _ => self.send(client),
            },
            CallPhase::AwaitingAck => match event {
                CallEvent::Reply(reply) => match reply.response {
                    BridgeResponse::Event(e) => {
                        client.record_event(reply.command_id, reply.timestamp_ms, e);
                        CallAction::ReadReply { limited: true }
                    },
                    _ => match Call::validate_ack(id, reply) {
                        Ok(()) => {
                            self.phase = CallPhase::AwaitingAnswer;
                            CallAction::ReadReply { limited: false }
                        },
                        Err(e) => CallAction::Finish(Err(e)),
                    },
                },
                CallEvent::LinkFailed(kind, reason) => {
                    if matches!(kind, IoKind::WouldBlock | IoKind::TimedOut) {
                        return CallAction::Finish(
                            Err(
                                DriverError::AckTimeout {
                                    command_id: id,
                                    timeout_ms: client.ack_timeout_ms,
                                },
                            ),
                        );
                    }
                    self.link_failed(kind, reason)
                },
                CallEvent::Garbled(message) => CallAction::Finish(
                    Err(DriverError::BridgeFailure { message }),
                ),
                _ => CallAction::ReadReply { limited: true },
            },
            CallPhase::AwaitingAnswer => match event {
                CallEvent::Reply(reply) => match reply.response {
                    BridgeResponse::Event(e) => {
                        client.record_event(reply.command_id, reply.timestamp_ms, e);
                        CallAction::ReadReply { limited: false }
                    },
                    response => {
                        if reply.command_id != id {
                            return CallAction::Finish(
                                Err(
                                    DriverError::SequenceMismatch {
                                        expected: id,
                                        got: reply.command_id,
                                    },
                                ),
                            );
                        }
                        match response {
                            BridgeResponse::Ack { .. } => CallAction::Finish(
                                Err(DriverError::AckMissing { command_id: id }),
                            ),
                            BridgeResponse::Failure { message } => {
                                client.bump_command_id();
                                CallAction::Finish(Err(DriverError::BridgeFailure { message }))
                            },
                            answer => {
                                client.bump_command_id();
                                if self.attempts.len() > 1 || self.greeting {
                                    self.greet(client, answer)
                                } else {
                                    CallAction::Finish(Ok(answer))
                                }
                            },
                        }
                    },
                },
                CallEvent::LinkFailed(kind, reason) => self.link_failed(kind, reason),
                CallEvent::Garbled(message) => {
                    client.bump_command_id();
                    CallAction::Finish(Err(DriverError::BridgeFailure { message }))
                },
                _ => CallAction::ReadReply { limited: false },
            },
            CallPhase::Connecting { failed, backoff_ms } => match event {
                CallEvent::Connected => self.connected(client),
                CallEvent::Unreachable(reason) => self.unreachable(
                    client,
                    reason,
                    failed,
                    backoff_ms,
                ),
                CallEvent::LinkFailed(kind, reason) => CallAction::Finish(
                    Err(DriverError::Io { io_kind: kind, reason }),
                ),
                _ => CallAction::PauseAndConnect(
                    if backoff_ms == 0 {
                        1
                    } else {
                        backoff_ms
                    },
                ),
            },
        }
    }
}

/// Whether a client has taken in an event and is otherwise as before.
pub open spec fn took_event(
    before: BridgeClient,
    reply: BridgeReply,
    event: BridgeEvent,
    after: BridgeClient,
) -> bool {
    &&& after.same_link(&before)
    &&& after.handshake == before.handshake
    &&& remembers(before, reply.command_id, reply.timestamp_ms, event, after)
    &&& after.observed == one_more(before.observed)
    &&& after.events@ == with_event(
        before.events@,
        BridgeEventRecord {
            id: reply.command_id,
            timestamp_ms: reply.timestamp_ms,
            payload: event,
        },
    )
}

/// Whether a client has gone on to the next command and is otherwise as before.
pub open spec fn went_on(before: BridgeClient, after: BridgeClient) -> bool {
    &&& after.next_command_id == BridgeClient::next_id(before.next_command_id)
    &&& after.events == before.events
    &&& after.observed == before.observed
    &&& after.latest_hud == before.latest_hud
    &&& after.latest_focus == before.latest_focus
}

/// Whether a failure of the link is answered as it has to be.
pub open spec fn link_answer(
    before: Call,
    kind: IoKind,
    reason: String,
    after: Call,
    action: CallAction,
) -> bool {
    if before.reconnects_on(kind) {
        let attempt = (before.attempts@.last() + 1) as u32;
        &&& after.attempts@ == before.attempts@.drop_last().push(attempt)
        &&& after.phase == (CallPhase::Connecting { failed: 0, backoff_ms: first_backoff(attempt) })
        &&& action == CallAction::PauseAndConnect(at_least_one(first_backoff(attempt)))
    } else {
        action == CallAction::Finish(Err(DriverError::Io { io_kind: kind, reason }))
    }
}

/// Whether the answer to the command at hand is taken as it has to be, once the
/// command has used its number up.
pub open spec fn final_answer(
    before: Call,
    answer: BridgeResponse,
    after: Call,
    client: BridgeClient,
    action: CallAction,
) -> bool {
    if !before.in_handshake() {
        action == CallAction::Finish(Ok(answer))
    } else {
        match answer {
            BridgeResponse::Handshake(h) => match handshake_complaint(h) {
                Some(why) => action matches CallAction::Finish(
                    Err(DriverError::BridgeFailure { message }),
                ) && message@ == why,
                None => client.handshake == Some(h) && if before.attempts@.len() > 1 {
                    &&& after.attempts@ == before.attempts@.drop_last()
                    &&& after.phase is Sending
                    &&& action == (CallAction::Send {
                        command_id: client.next_command_id,
                        request: after.current(),
                    })
                } else {
                    action == CallAction::Finish(Ok(BridgeResponse::Okay))
                },
            },
            _ => action matches CallAction::Finish(Err(DriverError::BridgeFailure { message }))
                && message@ == "unexpected handshake response: "@ + response_dump(answer),
        }
    }
}

/// Whether an event is answered as it has to be.
pub open spec fn call_answer(
    before: Call,
    client: BridgeClient,
    event: CallEvent,
    after: Call,
    client_after: BridgeClient,
    action: CallAction,
) -> bool {
    let id = client.next_command_id;
    match before.phase {
        CallPhase::Sending => client_after == client && match event {
            CallEvent::Sent => after.phase is AwaitingAck && after.attempts == before.attempts
                && action == (CallAction::ReadReply { limited: true }),
            CallEvent::LinkFailed(kind, reason) => link_answer(
                before,
                kind,
                reason,
                after,
                action,
            ),
            CallEvent::Garbled(message) => action == CallAction::Finish(
                Err(DriverError::BridgeFailure { message }),
            ),
            _ => after == before && action == (CallAction::Send {
                command_id: id,
                request: before.current(),
            }),
        },
        CallPhase::AwaitingAck => match event {
            CallEvent::Reply(reply) => match reply.response {
                BridgeResponse::Event(e) => took_event(client, reply, e, client_after) && after
                    == before && action == (CallAction::ReadReply { limited: true }),
                BridgeResponse::Ack { .. } => client_after == client && if reply.command_id == id {
                    &&& after.phase is AwaitingAnswer
                    &&& after.attempts == before.attempts
                    &&& action == (CallAction::ReadReply { limited: false })
                } else {
                    action matches CallAction::Finish(Err(e)) && Call::ack_error(id, reply, e)
                },
                _ => client_after == client && (action matches CallAction::Finish(Err(e))
                    && Call::ack_error(id, reply, e)),
            },
            CallEvent::LinkFailed(kind, reason) => client_after == client && if kind is WouldBlock
                || kind is TimedOut {
                action == CallAction::Finish(
                    Err(
                        DriverError::AckTimeout {
                            command_id: id,
                            timeout_ms: client.ack_timeout_ms,
                        },
                    ),
                )
            } else {
                link_answer(before, kind, reason, after, action)
            },
            CallEvent::Garbled(message) => client_after == client && action == CallAction::Finish(
                Err(DriverError::BridgeFailure { message }),
            ),
            _ => client_after == client && after == before && action == (CallAction::ReadReply {
                limited: true,
            }),
        },
        CallPhase::AwaitingAnswer => match event {
            CallEvent::Reply(reply) => match reply.response {
                BridgeResponse::Event(e) => took_event(client, reply, e, client_after) && after
                    == before && action == (CallAction::ReadReply { limited: false }),
                answer => if reply.command_id != id {
                    client_after == client && action == CallAction::Finish(
                        Err(DriverError::SequenceMismatch { expected: id, got: reply.command_id }),
                    )
                } else {
                    match answer {
                        BridgeResponse::Ack { .. } => client_after == client && action
                            == CallAction::Finish(Err(DriverError::AckMissing { command_id: id })),
                        BridgeResponse::Failure { message } => went_on(client, client_after)
                            && action == CallAction::Finish(
                            Err(DriverError::BridgeFailure { message }),
                        ),
                        _ => went_on(client, client_after) && final_answer(
                            before,
                            answer,
                            after,
                            client_after,
                            action,
                        ),
                    }
                },
            },
            CallEvent::LinkFailed(kind, reason) => client_after == client && link_answer(
                before,
                kind,
                reason,
                after,
                action,
            ),
            CallEvent::Garbled(message) => went_on(client, client_after) && action
                == CallAction::Finish(Err(DriverError::BridgeFailure { message })),
            _ => client_after == client && after == before && action == (CallAction::ReadReply {
                limited: false,
            }),
        },
        CallPhase::Connecting { failed, backoff_ms } => match event {
            CallEvent::Connected => {
                &&& client_after.cleared()
                &&& client_after.next_command_id == 0
                &&& after.attempts@ == before.attempts@.push(0)
                &&& after.phase is Sending
                &&& action == (CallAction::Send { command_id: 0, request: BridgeRequest::Ping })
            },
            CallEvent::Unreachable(reason) => client_after == client && if failed + 1
                < CONNECT_STEPS {
                &&& after.phase == (CallPhase::Connecting {
                    failed: (failed + 1) as u32,
                    backoff_ms: doubled(backoff_ms),
                })
                &&& after.attempts == before.attempts
                &&& action == CallAction::PauseAndConnect(at_least_one(doubled(backoff_ms)))
            } else {
                action == CallAction::Finish(
                    Err(DriverError::Connect { socket_path: client.socket_path, reason }),
                )
            },
            CallEvent::LinkFailed(kind, reason) => client_after == client && action
                == CallAction::Finish(Err(DriverError::Io { io_kind: kind, reason })),
            _ => client_after == client && after == before && action
                == CallAction::PauseAndConnect(at_least_one(backoff_ms)),
        },
    }
}

/// An answer is handed out only when it came under the number of the command, after
/// its acknowledgement.
pub proof fn answers_belong_to_their_command(
    before: Call,
    client: BridgeClient,
    event: CallEvent,
    after: Call,
    client_after: BridgeClient,
    action: CallAction,
)
    requires
        call_answer(before, client, event, after, client_after, action),
        action matches CallAction::Finish(Ok(_)),
    ensures
        before.phase is AwaitingAnswer,
        event matches CallEvent::Reply(reply) && reply.command_id == client.next_command_id,
        client_after.next_command_id == BridgeClient::next_id(client.next_command_id),
{
}

/// A new connection starts from nothing: no events, no snapshots, and the first
/// command is a greeting under the first number.
pub proof fn reconnects_start_afresh(
    before: Call,
    client: BridgeClient,
    after: Call,
    client_after: BridgeClient,
    action: CallAction,
)
    requires
        before.phase is Connecting,
        call_answer(before, client, CallEvent::Connected, after, client_after, action),
    ensures
        client_after.cleared(),
        client_after.next_command_id == 0,
        action == (CallAction::Send { command_id: 0, request: BridgeRequest::Ping }),
{
}

/// Once the connection is made anew and the greeting is answered by a clean handshake,
/// the command that was interrupted is sent again, with its reconnects still counted.
pub proof fn a_clean_greeting_resumes_the_command(
    interrupted: Call,
    client: BridgeClient,
    greeting: Call,
    greeting_client: BridgeClient,
    greeting_action: CallAction,
    waiting: Call,
    waiting_client: BridgeClient,
    reply: BridgeReply,
    handshake: BridgeHandshake,
    resumed: Call,
    resumed_client: BridgeClient,
    action: CallAction,
)
    requires
        interrupted.valid(),
        interrupted.phase is Connecting,
        call_answer(
            interrupted,
            client,
            CallEvent::Connected,
            greeting,
            greeting_client,
            greeting_action,
        ),
        waiting.phase is AwaitingAnswer,
        waiting.attempts@ == greeting.attempts@,
        waiting.request == interrupted.request,
        reply.command_id == waiting_client.next_command_id,
        reply.response == BridgeResponse::Handshake(handshake),
        handshake_complaint(handshake) is None,
        call_answer(
            waiting,
            waiting_client,
            CallEvent::Reply(reply),
            resumed,
            resumed_client,
            action,
        ),
        resumed.request == waiting.request,
    ensures
        resumed.attempts@ == interrupted.attempts@,
        resumed_client.handshake == Some(handshake),
        action == (CallAction::Send {
            command_id: resumed_client.next_command_id,
            request: interrupted.current(),
        }),
{
    assert(greeting.attempts@.drop_last() =~= interrupted.attempts@);
}

/// The newest event is always kept, and the others keep their order.
pub proof fn newest_events_are_kept(events: Seq<BridgeEventRecord>, record: BridgeEventRecord)
    requires
        events.len() <= EVENT_BUFFER_CAPACITY,
    ensures
        with_event(events, record).last() == record,
        with_event(events, record).len() <= EVENT_BUFFER_CAPACITY,
        with_event(events, record).len() == events.len() + 1 || with_event(events, record).drop_last()
            == events.drop_first(),
{
    assert(events.push(record).drop_last() =~= events);
    assert(events.drop_first().push(record).drop_last() =~= events.drop_first());
}

} // verus!
