//! What holds of every exchange with the bridge.

use vstd::prelude::*;

use crate::smoketest::bridge::{
    call_answer, ensure_clean_handshake, took_event, with_event, BridgeClient, BridgeEvent,
    BridgeEventRecord, BridgeHandshake, BridgeReply, BridgeRequest, BridgeResponse, Call,
    CallAction, CallEvent, CallPhase,
};
use crate::smoketest::driver::{
    before_text, control_socket_path, is_quote, key_answer, text_before, Driver, IdentStep,
    IdentWait, InitStep, InitWait, KeyInjection, KeyPhase, KeySequence, KeyStep, SequenceStep,
};
use crate::smoketest::error::DriverError;
use crate::text::{occurs, occurs_at, trimmed_start};
use crate::text_laws::{trimming_the_end_cuts_the_tail, trimming_the_start_cuts_the_head};

verus! {

/// A handshake is clean exactly when the idle timer is not armed, some client is connected
/// and no notification is pending.
pub proof fn clean_handshakes_have_nothing_pending(h: BridgeHandshake, r: Result<(), DriverError>)
    requires
        call_ensures(ensure_clean_handshake, (&h,), r),
    ensures
        r is Ok <==> !h.idle_timer.armed && h.idle_timer.clients_connected > 0
            && h.notifications@.len() == 0,
        r is Err ==> r->Err_0 is BridgeFailure,
{
}

/// The last 128 events are kept in their order: one more goes to the end, and the oldest
/// leaves only when there is no room.
pub proof fn the_last_events_are_kept(events: Seq<BridgeEventRecord>, record: BridgeEventRecord)
    requires
        events.len() <= 128,
    ensures
        with_event(events, record).last() == record,
        events.len() < 128 ==> with_event(events, record).drop_last() == events,
        events.len() == 128 ==> with_event(events, record).len() == 128 && with_event(
            events,
            record,
        ).drop_last() == events.skip(1),
{
    assert(events.push(record).drop_last() =~= events);
    assert(events.drop_first().push(record).drop_last() =~= events.skip(1));
}

/// An event is remembered as it came, at the end of the events; an update of the HUD leaves
/// the focus as it was, and a change of the focus leaves the HUD.
pub proof fn events_are_remembered_as_they_came(
    before: BridgeClient,
    reply: BridgeReply,
    event: BridgeEvent,
    after: BridgeClient,
)
    requires
        took_event(before, reply, event, after),
        before.events@.len() <= 128,
    ensures
        after.events@.len() > 0,
        after.events@.last().id == reply.command_id,
        after.events@.last().timestamp_ms == reply.timestamp_ms,
        after.events@.last().payload == event,
        before.observed < usize::MAX ==> after.observed == before.observed + 1,
        after.next_command_id == before.next_command_id,
        after.handshake == before.handshake,
        event matches BridgeEvent::Hud { depth, parent_title, keys, active_display } ==> {
            &&& after.latest_focus == before.latest_focus
            &&& after.latest_hud is Some
            &&& after.latest_hud->0.event_id == reply.command_id
            &&& after.latest_hud->0.depth == depth
            &&& after.latest_hud->0.parent_title == parent_title
            &&& after.latest_hud->0.keys@ == keys@
            &&& after.latest_hud->0.active_display == active_display
        },
        event matches BridgeEvent::WorldFocus { app, reconcile_seq } ==> {
            &&& after.latest_hud == before.latest_hud
            &&& after.latest_focus is Some
            &&& after.latest_focus->0.event_id == reply.command_id
            &&& after.latest_focus->0.app == app
            &&& after.latest_focus->0.reconcile_seq == reconcile_seq
        },
{
}

/// While a command is under way, an event is no answer: it is remembered, and reading goes
/// on. The answer is what came under the number of the command after its acknowledgement, as
/// it came; the next command has the next number.
pub proof fn a_command_gets_its_own_answer(
    before: Call,
    client: BridgeClient,
    reply: BridgeReply,
    after: Call,
    client_after: BridgeClient,
    action: CallAction,
)
    requires
        before.valid(),
        before.phase is AwaitingAnswer,
        call_answer(before, client, CallEvent::Reply(reply), after, client_after, action),
    ensures
        reply.response is Event ==> {
            &&& action == (CallAction::ReadReply { limited: false })
            &&& after == before
            &&& client_after.events@.len() > 0 && client_after.events@.last().payload
                == reply.response->Event_0
        },
        !(reply.response is Event) && reply.command_id != client.next_command_id ==> action
            == CallAction::Finish(
            Err(
                DriverError::SequenceMismatch {
                    expected: client.next_command_id,
                    got: reply.command_id,
                },
            ),
        ) && client_after == client,
        !(reply.response is Event) && reply.command_id == client.next_command_id ==> {
            &&& reply.response matches BridgeResponse::Failure { message } ==> action
                == CallAction::Finish(Err(DriverError::BridgeFailure { message }))
            &&& reply.response is Ack ==> action == CallAction::Finish(
                Err(DriverError::AckMissing { command_id: client.next_command_id }),
            )
            &&& !(reply.response is Failure) && !(reply.response is Ack) && !before.greeting
                && before.attempts@.len() == 1 ==> action == CallAction::Finish(Ok(reply.response))
            &&& !(reply.response is Ack) ==> client_after.next_command_id == if client.next_command_id
                == u64::MAX {
                0int
            } else {
                client.next_command_id + 1
            }
        },
{
}

/// The greeting of a connection succeeds exactly with a clean handshake, which is then
/// remembered. One that interrupted a command leads back to the command.
pub proof fn greetings_need_a_clean_handshake(
    before: Call,
    client: BridgeClient,
    reply: BridgeReply,
    after: Call,
    client_after: BridgeClient,
    action: CallAction,
)
    requires
        before.valid(),
        before.phase is AwaitingAnswer,
        before.greeting || before.attempts@.len() > 1,
        reply.command_id == client.next_command_id,
        call_answer(before, client, CallEvent::Reply(reply), after, client_after, action),
    ensures
        reply.response matches BridgeResponse::Handshake(h) ==> if !h.idle_timer.armed
            && h.idle_timer.clients_connected > 0 && h.notifications@.len() == 0 {
            &&& client_after.handshake == Some(h)
            &&& before.attempts@.len() == 1 ==> action == CallAction::Finish(
                Ok(BridgeResponse::Okay),
            )
            &&& before.attempts@.len() > 1 ==> action is Send && after.attempts@.len()
                == before.attempts@.len() - 1
        } else {
            action is Finish && action->Finish_0 is Err
        },
        !(reply.response is Handshake) && !(reply.response is Event) ==> action is Finish
            && action->Finish_0 is Err,
{
}

/// A command is sent, then its acknowledgement is awaited for a limited time, and then its
/// answer without a limit. An acknowledgement under another number, or anything else in its
/// place, ends the call.
pub proof fn commands_are_acknowledged_first(
    before: Call,
    client: BridgeClient,
    event: CallEvent,
    after: Call,
    client_after: BridgeClient,
    action: CallAction,
)
    requires
        before.valid(),
        call_answer(before, client, event, after, client_after, action),
    ensures
        before.phase is Sending && event is Sent ==> after.phase is AwaitingAck && action == (
        CallAction::ReadReply { limited: true }),
        after.phase is AwaitingAnswer && !(before.phase is AwaitingAnswer) && !(action is Finish)
            ==> {
            &&& before.phase is AwaitingAck
            &&& event is Reply && event->Reply_0.command_id == client.next_command_id
                && event->Reply_0.response is Ack
            &&& action == (CallAction::ReadReply { limited: false })
            &&& client_after == client
        },
        before.phase is AwaitingAck && event is Reply && event->Reply_0.response is Ack
            && event->Reply_0.command_id == client.next_command_id ==> after.phase
            is AwaitingAnswer,
        before.phase is AwaitingAck && event is Reply && !(event->Reply_0.response is Event) && !(
        event->Reply_0.response is Ack && event->Reply_0.command_id == client.next_command_id)
            ==> action is Finish && action->Finish_0 is Err,
        before.phase is AwaitingAck && event is LinkFailed && (event->LinkFailed_0 is WouldBlock
            || event->LinkFailed_0 is TimedOut) ==> action == CallAction::Finish(
            Err(
                DriverError::AckTimeout {
                    command_id: client.next_command_id,
                    timeout_ms: client.ack_timeout_ms,
                },
            ),
        ),
{
}

/// A connection that is gone is made anew at most three times for one command, after a pause
/// that grows with each; each time it is tried three times at most, with the pause doubled.
/// Any other failure of the link ends the call with that failure.
pub proof fn lost_connections_are_made_anew(
    before: Call,
    client: BridgeClient,
    event: CallEvent,
    after: Call,
    client_after: BridgeClient,
    action: CallAction,
)
    requires
        before.valid(),
        call_answer(before, client, event, after, client_after, action),
    ensures
        !(before.phase is Connecting) && event is LinkFailed ==> {
            let kind = event->LinkFailed_0;
            let gone = kind is BrokenPipe || kind is ConnectionReset || kind is ConnectionAborted;
            let timed_out = before.phase is AwaitingAck && (kind is WouldBlock || kind is TimedOut);
            &&& gone && before.attempts@.last() < 3 ==> {
                &&& after.attempts@.len() == before.attempts@.len()
                &&& after.attempts@.last() == before.attempts@.last() + 1
                &&& after.phase is Connecting
                &&& action == CallAction::PauseAndConnect((50 * after.attempts@.last()) as u64)
            }
            &&& !timed_out && !(gone && before.attempts@.last() < 3) ==> action
                == CallAction::Finish(
                Err(DriverError::Io { io_kind: kind, reason: event->LinkFailed_1 }),
            )
            &&& client_after == client
        },
        before.phase matches CallPhase::Connecting { failed, backoff_ms } ==> {
            &&& event is Unreachable && failed < 2 ==> {
                &&& after.phase is Connecting && after.phase->failed == failed + 1
                &&& backoff_ms <= u64::MAX / 2 ==> after.phase->backoff_ms == 2 * backoff_ms
                &&& action == CallAction::PauseAndConnect(
                    if after.phase->backoff_ms == 0 {
                        1
                    } else {
                        after.phase->backoff_ms
                    },
                )
            }
            &&& event is Unreachable && failed == 2 ==> action == CallAction::Finish(
                Err(
                    DriverError::Connect {
                        socket_path: client.socket_path,
                        reason: event->Unreachable_0,
                    },
                ),
            )
        },
{
}

/// The control socket is the one that was chosen, or else the server's with an ending of its
/// own.
pub proof fn the_control_socket_is_next_to_the_server(
    server: &str,
    chosen: Option<&str>,
    r: String,
)
    requires
        call_ensures(control_socket_path, (server, chosen), r),
    ensures
        chosen matches Some(path) ==> r@ == path@,
        chosen is None ==> r@.len() == server@.len() + 7 && r@.take(server@.len() as int) == server@
            && r@.skip(server@.len() as int) == ".bridge"@,
{
    reveal_strlit(".bridge");
    if chosen is None {
        assert(r@.take(server@.len() as int) =~= server@);
        assert(r@.skip(server@.len() as int) =~= ".bridge"@);
    }
}

/// Whether an error says somewhere that the key is not bound.
pub open spec fn says_unbound(e: DriverError) -> bool {
    e is BridgeFailure && exists|a: Seq<char>, b: Seq<char>|
        #![trigger a + "KeyNotBound"@ + b]
        e->BridgeFailure_message@ == a + "KeyNotBound"@ + b
}

proof fn saying_is_holding(message: Seq<char>)
    ensures
        occurs(message, "KeyNotBound"@) <==> exists|a: Seq<char>, b: Seq<char>|
            #![trigger a + "KeyNotBound"@ + b]
            message == a + "KeyNotBound"@ + b,
{
    let needle = "KeyNotBound"@;
    if occurs(message, needle) {
        let i = choose|i: int| #[trigger] occurs_at(message, needle, i);
        let a = message.take(i);
        let b = message.skip(i + needle.len());
        assert forall|k: int| 0 <= k < needle.len() implies message[i + k] == #[trigger] needle[k] by {
            assert(message.subrange(i, i + needle.len())[k] == message[i + k]);
        }
        assert(message =~= a + needle + b);
    }
    if exists|a: Seq<char>, b: Seq<char>|
        #![trigger a + "KeyNotBound"@ + b]
        message == a + "KeyNotBound"@ + b {
        let (a, b) = choose|a: Seq<char>, b: Seq<char>|
            #![trigger a + "KeyNotBound"@ + b]
            message == a + "KeyNotBound"@ + b;
        let end = (a.len() + needle.len()) as int;
        assert(message.subrange(a.len() as int, end) =~= needle);
        assert(occurs_at(message, needle, a.len() as int));
    }
}

/// A key that is not bound yet is pressed again every 30 milliseconds until its time is up;
/// one that was pressed is held and released; and one that is no longer bound counts as
/// released. Any other failure is reported as it came.
pub proof fn keys_are_pressed_until_they_are_bound(
    before: KeyInjection,
    outcome: Result<(), DriverError>,
    now: u64,
    after: KeyPhase,
    step: KeyStep,
)
    requires
        key_answer(before, outcome, now, after, step),
        !(before.phase is Over),
    ensures
        before.phase is Pressing && outcome is Ok ==> after is Releasing && step is HoldThenRelease,
        before.phase is Releasing && outcome is Ok ==> after is Over && step is Done,
        outcome matches Err(e) ==> if says_unbound(e) {
            &&& before.phase is Pressing && now < before.deadline ==> after is Pressing && step
                == KeyStep::PauseThenPress(30)
            &&& before.phase is Pressing && now >= before.deadline ==> after is Over && step
                == KeyStep::Failed(
                DriverError::BindingTimeout { ident: before.ident, timeout_ms: before.gate_ms },
            )
            &&& before.phase is Releasing ==> after is Over && step is Done
        } else {
            after is Over && step == KeyStep::Failed(e)
        },
{
    if let Err(e) = outcome {
        if let DriverError::BridgeFailure { message } = e {
            saying_is_holding(message@);
        }
    }
}

/// A key may take three times as long to be bound as a binding takes to appear.
pub proof fn keys_get_three_gates(
    driver: Driver,
    ident: String,
    gate_ms: u64,
    now: u64,
    r: Result<KeyInjection, DriverError>,
)
    requires
        call_ensures(Driver::inject_key, (&driver, ident, gate_ms, now), r),
    ensures
        driver.conn is None <==> r is Err,
        driver.conn is None ==> r->Err_0 is NotInitialized,
        r matches Ok(k) ==> {
            &&& k.ident == ident
            &&& k.phase is Pressing
            &&& 3 * gate_ms <= u64::MAX ==> k.gate_ms == 3 * gate_ms && k.deadline == now + 3
                * gate_ms * 1_000_000
        },
{
}

/// Keys are injected in their order, from the first to the last, and then it is over.
pub proof fn keys_come_in_their_order(count: usize, delay_ms: u64, begun: (KeySequence, SequenceStep))
    requires
        call_ensures(KeySequence::inject_sequence, (count, delay_ms), begun),
    ensures
        count > 0 ==> begun.1 == SequenceStep::Inject(0),
        count == 0 ==> begun.1 is Done,
        begun.0.delay_ms == delay_ms,
        forall|at: usize|
            #![trigger (KeySequence { at, ..begun.0 }).due()]
            if at < count {
                (KeySequence { at, ..begun.0 }).due() == SequenceStep::Inject(at)
            } else {
                (KeySequence { at, ..begun.0 }).due() is Done
            },
{
}

/// A driver sends the request that was asked for, under the next number of its connection;
/// without one it says so.
pub proof fn requests_are_sent_as_asked_for(
    driver: Driver,
    bindings: Result<(Call, CallAction), DriverError>,
    alive: Result<(Call, CallAction), DriverError>,
    world: Result<(Call, CallAction), DriverError>,
    target: u64,
    timeout_ms: u64,
    seq: Result<(Call, CallAction), DriverError>,
    path: String,
    shown: &str,
    config: Result<(Call, CallAction), DriverError>,
)
    requires
        call_ensures(Driver::get_bindings, (&driver,), bindings),
        call_ensures(Driver::check_alive, (&driver,), alive),
        call_ensures(Driver::get_world_snapshot, (&driver,), world),
        call_ensures(Driver::wait_for_world_seq, (&driver, target, timeout_ms), seq),
        call_ensures(Driver::set_config_from_path, (&driver, Some(path), shown), config),
    ensures
        driver.conn is None ==> {
            &&& bindings is Err && bindings->Err_0 is NotInitialized
            &&& alive is Err && alive->Err_0 is NotInitialized
            &&& world is Err && world->Err_0 is NotInitialized
            &&& seq is Err && seq->Err_0 is NotInitialized
            &&& config is Err && config->Err_0 is NotInitialized
        },
        driver.conn matches Some(client) ==> {
            let command_id = client.next_command_id;
            &&& sends(bindings, command_id, BridgeRequest::GetBindings)
            &&& sends(alive, command_id, BridgeRequest::GetDepth)
            &&& sends(world, command_id, BridgeRequest::GetWorldSnapshot)
            &&& sends(seq, command_id, BridgeRequest::WaitForWorldSeq { target, timeout_ms })
            &&& sends(config, command_id, BridgeRequest::SetConfig { path })
        },
{
}

/// Whether a call has begun with a request under a number.
pub open spec fn sends(
    r: Result<(Call, CallAction), DriverError>,
    command_id: u64,
    request: BridgeRequest,
) -> bool {
    &&& r is Ok
    &&& (r->Ok_0).0.request == request
    &&& (r->Ok_0).0.phase is Sending
    &&& (r->Ok_0).1 == (CallAction::Send { command_id, request })
}

/// The bridge is tried as long as there is time; then the wait fails, with the socket, the
/// time and the last reason.
pub proof fn the_bridge_is_tried_until_time_is_up(wait: InitWait, now: u64, step: InitStep)
    requires
        wait.due(now, step),
    ensures
        step is Attempt <==> now < wait.deadline,
        now >= wait.deadline ==> {
            &&& step is Failed
            &&& step->Failed_0 is InitTimeout
            &&& step->Failed_0->InitTimeout_socket_path == wait.control_path
            &&& step->Failed_0->InitTimeout_timeout_ms == wait.timeout_ms
            &&& wait.last_error matches Some(why) ==> step->Failed_0->InitTimeout_last_error@
                == why@
        },
{
}

proof fn order_is_by_the_first_difference(a: Seq<char>, b: Seq<char>)
    ensures
        before_text(a, b) <==> exists|k: int| #[trigger] differ_at(a, b, k),
    decreases b.len(),
{
    if a.len() > 0 && b.len() > 0 && a[0] == b[0] {
        let (x, y) = (a.drop_first(), b.drop_first());
        order_is_by_the_first_difference(x, y);
        if before_text(a, b) {
            let k = choose|k: int| #[trigger] differ_at(x, y, k);
            assert forall|i: int| 0 <= i < k + 1 implies #[trigger] a[i] == b[i] by {
                if i > 0 {
                    assert(x[i - 1] == y[i - 1]);
                }
            }
            assert(differ_at(a, b, k + 1));
        }
        if exists|k: int| #[trigger] differ_at(a, b, k) {
            let k = choose|k: int| #[trigger] differ_at(a, b, k);
            assert(k > 0);
            assert forall|i: int| 0 <= i < k - 1 implies #[trigger] x[i] == y[i] by {
                assert(a[i + 1] == b[i + 1]);
            }
            assert(differ_at(x, y, k - 1));
        }
    } else if before_text(a, b) {
        assert(differ_at(a, b, 0));
    } else {
        if exists|k: int| #[trigger] differ_at(a, b, k) {
            let k = choose|k: int| #[trigger] differ_at(a, b, k);
            if k > 0 {
                assert(a[0] == b[0]);
            }
        }
    }
}

/// Whether two texts agree before a position, at which the first one ends or has the lesser
/// character.
pub open spec fn differ_at(a: Seq<char>, b: Seq<char>, k: int) -> bool {
    &&& 0 <= k <= a.len()
    &&& k < b.len()
    &&& forall|i: int| 0 <= i < k ==> #[trigger] a[i] == b[i]
    &&& k == a.len() || a[k] < b[k]
}

/// Texts are ordered by the first character in which they differ; a text comes before those
/// that it begins.
pub proof fn texts_are_ordered_by_the_first_difference(a: &str, b: &str, r: bool)
    requires
        call_ensures(text_before, (a, b), r),
    ensures
        r <==> exists|k: int| #[trigger] differ_at(a@, b@, k),
{
    order_is_by_the_first_difference(a@, b@);
}

/// A binding goes by its name without the quotes around it, and with those inside.
pub proof fn quotes_around_a_binding_are_dropped(raw: &str, r: String)
    requires
        call_ensures(IdentWait::binding_name, (raw,), r),
    ensures
        r@.len() > 0 ==> r@.first() != '"' && r@.last() != '"',
        exists|k: int|
            #![trigger raw@.subrange(k, k + r@.len())]
            {
                &&& 0 <= k
                &&& k + r@.len() <= raw@.len()
                &&& raw@.subrange(k, k + r@.len()) == r@
                &&& forall|i: int|
                    0 <= i < k || k + r@.len() <= i < raw@.len() ==> #[trigger] raw@[i] == '"'
            },
{
    let cut = is_quote();
    let mid = trimmed_start(raw@, cut);
    trimming_the_start_cuts_the_head(raw@, cut);
    trimming_the_end_cuts_the_tail(mid, cut);
    let k = raw@.len() - mid.len();
    let n = r@.len() as int;
    assert(raw@.subrange(k, k + n) =~= r@);
    assert forall|i: int| 0 <= i < k || k + n <= i < raw@.len() implies #[trigger] raw@[i] == '"' by {
        if i < k {
            assert(cut(raw@[i]));
        } else {
            assert(mid[i - k] == raw@[i]);
            assert(cut(mid[i - k]));
        }
    }
    if n > 0 {
        assert(mid.first() == r@.first());
    }
}

/// Bindings are asked for as long as there is time and some are missing; then the wait fails
/// and names those that are.
pub proof fn bindings_are_asked_for_until_time_is_up(wait: IdentWait, now: u64, step: IdentStep)
    requires
        wait.due(now, step),
    ensures
        step is Fetch <==> now < wait.deadline,
        now >= wait.deadline ==> {
            &&& step is Failed
            &&& step->Failed_0 is BindingTimeout
            &&& step->Failed_0->BindingTimeout_timeout_ms == wait.timeout_ms
            &&& wait.remaining@.len() == 1 ==> step->Failed_0->BindingTimeout_ident@
                == wait.remaining@[0]@
        },
{
    if wait.remaining@.len() == 1 {
        assert(crate::text::texts(wait.remaining@)[0] == wait.remaining@[0]@);
    }
}

} // verus!
