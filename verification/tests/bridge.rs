//! The bridge and its driver, against a scripted server.

use hotki::smoketest::bridge::{
    ensure_clean_handshake, BridgeClient, BridgeEvent, BridgeHandshake, BridgeReply, BridgeRequest,
    BridgeResponse, Call, CallAction, CallEvent, CallPhase, FocusedApp, HudKey, IdleTimer,
    Notification, EVENT_BUFFER_CAPACITY,
};
use hotki::smoketest::driver::{
    control_socket_path, describe_init_error, message_contains_key_not_bound, text_before, Driver,
    IdentEvent, IdentStep, IdentWait, InitEvent, InitStep, InitWait, KeyStep,
};
use hotki::smoketest::error::{connection_lost, print_hints, DriverError, Error, IoKind};

const MS: u64 = 1_000_000;

fn reply(command_id: u64, response: BridgeResponse) -> CallEvent {
    CallEvent::Reply(BridgeReply { command_id, timestamp_ms: 77, response })
}

fn ack(command_id: u64) -> CallEvent {
    reply(command_id, BridgeResponse::Ack { queued: 1 })
}

fn idle(clients_connected: usize) -> IdleTimer {
    IdleTimer { timeout_secs: 60, armed: false, deadline_ms: None, clients_connected }
}

fn handshake(command_id: u64, clients: usize) -> CallEvent {
    reply(
        command_id,
        BridgeResponse::Handshake(BridgeHandshake {
            idle_timer: idle(clients),
            notifications: Vec::new(),
        }),
    )
}

fn hud_event(event_id: u64) -> CallEvent {
    reply(
        event_id,
        BridgeResponse::Event(BridgeEvent::Hud {
            depth: 1,
            parent_title: Some("Test".to_string()),
            keys: vec![HudKey {
                ident: "k".to_string(),
                description: "Key".to_string(),
                is_mode: false,
            }],
            active_display: None,
        }),
    )
}

fn greet(path: &str, clients: usize) -> BridgeClient {
    let mut client = BridgeClient::new(path.to_string(), 500);
    let (mut call, action) = Call::begin(&client, BridgeRequest::Ping, true);
    assert!(matches!(
        action,
        CallAction::Send { command_id: 0, request: BridgeRequest::Ping }
    ));
    assert!(matches!(
        call.next(&mut client, CallEvent::Sent),
        CallAction::ReadReply { limited: true }
    ));
    assert!(matches!(call.next(&mut client, ack(0)), CallAction::ReadReply { limited: false }));
    assert!(matches!(
        call.next(&mut client, handshake(0, clients)),
        CallAction::Finish(Ok(BridgeResponse::Okay))
    ));
    client
}

fn ready(path: &str, clients: usize) -> Driver {
    let mut driver = Driver::new();
    let (mut wait, step) = InitWait::ensure_init(&driver, path, None, 1_000, 0);
    assert!(matches!(step, InitStep::Attempt));
    let client = greet(&wait.control_path, clients);
    assert!(matches!(
        wait.next(&mut driver, InitEvent::Reached(client), 5),
        InitStep::Ready
    ));
    driver
}

#[test]
fn inject_key_requires_initialization() {
    let mut driver = Driver::new();
    driver.reset();
    let err = driver.inject_key("cmd+shift+9".to_string(), 700, 0).unwrap_err();
    assert!(matches!(err, DriverError::NotInitialized));
    let err = driver.begin_key("cmd+shift+9", true).unwrap_err();
    assert!(matches!(err, DriverError::NotInitialized));
}

#[test]
fn ensure_init_times_out_for_missing_socket() {
    let mut driver = Driver::new();
    let path = "/tmp/hotki-bridge-test-1-2.sock";
    let (mut wait, step) = InitWait::ensure_init(&driver, path, None, 25, 0);
    assert!(matches!(step, InitStep::Attempt));
    let missed = DriverError::Connect {
        socket_path: control_socket_path(path, None),
        reason: "No such file or directory (os error 2)".to_string(),
    };
    assert!(matches!(
        wait.next(&mut driver, InitEvent::Missed(missed), MS),
        InitStep::Pause(50)
    ));
    match wait.next(&mut driver, InitEvent::Rested, 51 * MS) {
        InitStep::Failed(DriverError::InitTimeout { socket_path, timeout_ms, last_error }) => {
            assert_eq!(socket_path, control_socket_path(path, None));
            assert_eq!(timeout_ms, 25);
            assert_eq!(last_error, "No such file or directory (os error 2)");
        }
        other => panic!("expected InitTimeout, got {:?}", other),
    }
    assert!(!driver.is_ready());
}

#[test]
fn a_wait_without_time_makes_no_attempt() {
    let driver = Driver::new();
    let (_, step) = InitWait::ensure_init(&driver, "/tmp/s", None, 0, 9);
    match step {
        InitStep::Failed(err) => assert_eq!(
            err.describe(),
            "timed out after 0 ms initializing bridge at '/tmp/s.bridge': no connection attempts \
             were made"
        ),
        other => panic!("unexpected {:?}", other),
    }
}

#[test]
fn get_bindings_fails_without_connection() {
    let driver = Driver::new();
    let err = driver.get_bindings().unwrap_err();
    assert!(matches!(err, DriverError::NotInitialized));
}

#[test]
fn check_alive_without_connection_reports_error() {
    let driver = Driver::new();
    let err = driver.check_alive().unwrap_err();
    assert!(matches!(err, DriverError::NotInitialized));
}

#[test]
fn control_socket_path_appends_suffix() {
    let path = "/tmp/hotki.sock";
    assert_eq!(control_socket_path(path, None), "/tmp/hotki.sock.bridge");
    assert_eq!(control_socket_path(path, Some("/tmp/other")), "/tmp/other");
}

#[test]
fn ensure_init_retries_failed_handshake() {
    let mut driver = Driver::new();
    let (mut wait, step) = InitWait::ensure_init(&driver, "/tmp/hotki.sock", None, 1_000, 0);
    assert!(matches!(step, InitStep::Attempt));

    // First attempt: the server answers the greeting with an error.
    let mut client = BridgeClient::new(wait.control_path.clone(), 500);
    let (mut call, _) = Call::begin(&client, BridgeRequest::Ping, true);
    call.next(&mut client, CallEvent::Sent);
    call.next(&mut client, ack(0));
    let failed = call.next(
        &mut client,
        reply(0, BridgeResponse::Failure { message: "handshake failed".to_string() }),
    );
    let CallAction::Finish(Err(err)) = failed else { panic!("expected an error") };
    assert!(matches!(wait.next(&mut driver, InitEvent::Missed(err), 9 * MS), InitStep::Pause(50)));
    assert_eq!(wait.last_error.as_deref(), Some("handshake failed"));
    assert!(matches!(wait.next(&mut driver, InitEvent::Rested, 60 * MS), InitStep::Attempt));

    // Second attempt: the greeting succeeds.
    let client = greet(&wait.control_path, 7);
    assert!(matches!(
        wait.next(&mut driver, InitEvent::Reached(client), 70 * MS),
        InitStep::Ready
    ));
    let clients = driver.conn.as_ref().and_then(|c| c.handshake.as_ref());
    assert_eq!(clients.map(|h| h.idle_timer.clients_connected), Some(7));
}

#[test]
fn reconnect_refreshes_handshake_and_clears_cache() {
    let mut driver = Driver::new();
    // First connection: the greeting succeeds and an event comes with it.
    let mut client = BridgeClient::new("/tmp/hotki.sock.bridge".to_string(), 500);
    let (mut call, _) = Call::begin(&client, BridgeRequest::Ping, true);
    call.next(&mut client, CallEvent::Sent);
    call.next(&mut client, ack(0));
    assert!(matches!(
        call.next(&mut client, hud_event(1 << 32)),
        CallAction::ReadReply { limited: false }
    ));
    assert!(matches!(
        call.next(&mut client, handshake(0, 1)),
        CallAction::Finish(Ok(_))
    ));
    driver.conn = Some(client);
    let hud_before = driver.latest_hud().unwrap();
    assert_eq!(hud_before.map(|h| (h.event_id, h.depth, h.keys.len())), Some((1 << 32, 1, 1)));

    // The connection is closed: the next command reconnects and greets first.
    let (mut call, action) = driver.check_alive().unwrap();
    assert!(matches!(
        action,
        CallAction::Send { command_id: 1, request: BridgeRequest::GetDepth }
    ));
    let conn = driver.conn.as_mut().unwrap();
    let lost = CallEvent::LinkFailed(IoKind::BrokenPipe, "Broken pipe".to_string());
    assert!(matches!(call.next(conn, lost), CallAction::PauseAndConnect(50)));
    assert!(matches!(
        call.next(conn, CallEvent::Connected),
        CallAction::Send { command_id: 0, request: BridgeRequest::Ping }
    ));
    call.next(conn, CallEvent::Sent);
    call.next(conn, ack(0));
    assert!(matches!(
        call.next(conn, handshake(0, 2)),
        CallAction::Send { command_id: 1, request: BridgeRequest::GetDepth }
    ));
    call.next(conn, CallEvent::Sent);
    call.next(conn, ack(1));
    match call.next(conn, reply(1, BridgeResponse::Depth(2))) {
        CallAction::Finish(Ok(answer)) => assert_eq!(answer.into_depth().unwrap(), 2),
        other => panic!("unexpected {:?}", other),
    }

    assert!(driver.is_ready());
    assert!(driver.latest_hud().unwrap().is_none());
    let conn = driver.conn.as_ref().unwrap();
    assert_eq!(conn.handshake.as_ref().unwrap().idle_timer.clients_connected, 2);
    assert_eq!(conn.event_buffer_len(), 0);
    assert_eq!(conn.next_command_id, 2);
}

#[test]
fn shutdown_flags_post_shutdown_events() {
    let mut driver = ready("/tmp/hotki.sock", 3);
    let (baseline, mut call, action) = driver.shutdown().unwrap();
    assert!(matches!(
        action,
        CallAction::Send { command_id: 1, request: BridgeRequest::Shutdown }
    ));
    let conn = driver.conn.as_mut().unwrap();
    call.next(conn, CallEvent::Sent);
    call.next(conn, ack(1));
    call.next(conn, hud_event(101));
    let CallAction::Finish(outcome) = call.next(conn, reply(1, BridgeResponse::Okay)) else {
        panic!("the call is over")
    };
    let err = driver.finish_shutdown(baseline, outcome).unwrap_err();
    assert!(matches!(err, DriverError::PostShutdownMessage { .. }));
    assert_eq!(
        err.describe(),
        "unexpected bridge message after shutdown: bridge event observed after shutdown: \
         Hud { depth: 1, parent_title: Some(\"Test\"), keys: [HudKey { ident: \"k\", \
         description: \"Key\", is_mode: false }], active_display: None }"
    );
    assert!(!driver.is_ready());
    assert!(matches!(driver.shutdown().unwrap_err(), DriverError::NotInitialized));
}

#[test]
fn a_clean_shutdown_drops_the_connection() {
    let mut driver = ready("/tmp/hotki.sock", 3);
    let (baseline, _, _) = driver.shutdown().unwrap();
    assert!(driver.finish_shutdown(baseline, Ok(BridgeResponse::Okay)).is_ok());
    assert!(!driver.is_ready());

    let mut driver = ready("/tmp/hotki.sock", 3);
    let (baseline, _, _) = driver.shutdown().unwrap();
    let err = driver.finish_shutdown(baseline, Ok(BridgeResponse::Depth(1))).unwrap_err();
    assert_eq!(err.describe(), "bridge command failed: unexpected bridge response");
    assert!(!driver.is_ready());
}

#[test]
fn acknowledgements_have_to_fit() {
    let mut client = greet("/tmp/b", 1);
    assert_eq!(client.next_command_id, 1);
    let (mut call, _) = Call::begin(&client, BridgeRequest::GetBindings, false);
    call.next(&mut client, CallEvent::Sent);
    let action = call.next(&mut client, ack(9));
    let CallAction::Finish(Err(err)) = action else { panic!("expected an error") };
    assert_eq!(err.describe(), "bridge sequence mismatch: expected command 1, got 9");
    assert_eq!(client.next_command_id, 1);

    let (mut call, _) = Call::begin(&client, BridgeRequest::GetBindings, false);
    call.next(&mut client, CallEvent::Sent);
    let action = call.next(&mut client, reply(1, BridgeResponse::Okay));
    let CallAction::Finish(Err(err)) = action else { panic!("expected an error") };
    assert_eq!(err.describe(), "bridge missing ACK for command 1");

    let (mut call, _) = Call::begin(&client, BridgeRequest::GetBindings, false);
    call.next(&mut client, CallEvent::Sent);
    let slow = CallEvent::LinkFailed(IoKind::TimedOut, "timed out".to_string());
    let CallAction::Finish(Err(err)) = call.next(&mut client, slow) else {
        panic!("expected an error")
    };
    assert_eq!(
        err.describe(),
        "bridge acknowledgement for command 1 timed out after 500 ms"
    );
}

#[test]
fn an_answered_command_uses_its_number_up() {
    let mut client = greet("/tmp/b", 1);
    let (mut call, _) = Call::begin(&client, BridgeRequest::GetBindings, false);
    call.next(&mut client, CallEvent::Sent);
    call.next(&mut client, ack(1));
    let refused = reply(1, BridgeResponse::Failure { message: "KeyNotBound: x".to_string() });
    assert!(matches!(
        call.next(&mut client, refused),
        CallAction::Finish(Err(DriverError::BridgeFailure { .. }))
    ));
    assert_eq!(client.next_command_id, 2);

    let (mut call, _) = Call::begin(&client, BridgeRequest::GetDepth, false);
    call.next(&mut client, CallEvent::Sent);
    call.next(&mut client, ack(2));
    let action = call.next(&mut client, CallEvent::Garbled("bridge socket '/tmp/b' closed".to_string()));
    assert!(matches!(action, CallAction::Finish(Err(DriverError::BridgeFailure { .. }))));
    assert_eq!(client.next_command_id, 3);
}

#[test]
fn reconnects_back_off_and_give_up() {
    let mut client = greet("/tmp/b", 1);
    let (mut call, _) = Call::begin(&client, BridgeRequest::GetDepth, false);
    let gone = || CallEvent::LinkFailed(IoKind::ConnectionReset, "reset".to_string());
    assert!(matches!(call.next(&mut client, gone()), CallAction::PauseAndConnect(50)));
    let refused = || CallEvent::Unreachable("refused".to_string());
    assert!(matches!(call.next(&mut client, refused()), CallAction::PauseAndConnect(100)));
    assert!(matches!(call.next(&mut client, refused()), CallAction::PauseAndConnect(200)));
    let CallAction::Finish(Err(err)) = call.next(&mut client, refused()) else {
        panic!("expected an error")
    };
    assert_eq!(err.describe(), "failed to connect to bridge socket '/tmp/b': refused");
}

#[test]
fn a_command_reconnects_three_times_at_most() {
    let mut client = greet("/tmp/b", 1);
    let (mut call, _) = Call::begin(&client, BridgeRequest::GetDepth, false);
    for pause in [50, 100, 150] {
        let gone = CallEvent::LinkFailed(IoKind::BrokenPipe, "gone".to_string());
        match call.next(&mut client, gone) {
            CallAction::PauseAndConnect(ms) => assert_eq!(ms, pause),
            other => panic!("unexpected {:?}", other),
        }
        call.next(&mut client, CallEvent::Connected);
        call.next(&mut client, CallEvent::Sent);
        call.next(&mut client, ack(0));
        call.next(&mut client, handshake(0, 1));
    }
    assert_eq!(call.phase, CallPhase::Sending);
    let gone = CallEvent::LinkFailed(IoKind::BrokenPipe, "gone".to_string());
    assert!(matches!(
        call.next(&mut client, gone),
        CallAction::Finish(Err(DriverError::Io { .. }))
    ));
}

#[test]
fn handshakes_have_to_be_clean() {
    let mut h = BridgeHandshake { idle_timer: idle(1), notifications: Vec::new() };
    assert!(ensure_clean_handshake(&h).is_ok());
    h.notifications.push(Notification { title: "T".to_string(), text: "x".to_string() });
    assert_eq!(
        ensure_clean_handshake(&h).unwrap_err().describe(),
        "bridge command failed: bridge reported 1 pending notifications, starting with 'T': x"
    );
    h.idle_timer = idle(0);
    assert_eq!(
        ensure_clean_handshake(&h).unwrap_err().describe(),
        "bridge command failed: server reported zero connected clients during handshake"
    );
    h.idle_timer.armed = true;
    h.idle_timer.deadline_ms = Some(12);
    assert_eq!(
        ensure_clean_handshake(&h).unwrap_err().describe(),
        "bridge command failed: server idle timer armed during handshake (deadline_ms=Some(12))"
    );
}

fn greeted_with(response: BridgeResponse) -> String {
    let mut client = BridgeClient::new("/tmp/b".to_string(), 1);
    let (mut call, _) = Call::begin(&client, BridgeRequest::Ping, true);
    call.next(&mut client, CallEvent::Sent);
    call.next(&mut client, ack(0));
    match call.next(&mut client, reply(0, response)) {
        CallAction::Finish(Err(err)) => err.describe(),
        other => panic!("unexpected action: {other:?}"),
    }
}

#[test]
fn an_unexpected_greeting_is_shown() {
    let text = greeted_with(BridgeResponse::Depth(3));
    assert!(text.ends_with("unexpected handshake response: Depth(3)"), "{text}");
    let text = greeted_with(BridgeResponse::Bindings(vec!["a".to_string(), "\"".to_string()]));
    assert!(text.ends_with("response: Bindings([\"a\", \"\\\"\"])"), "{text}");
    let text = greeted_with(BridgeResponse::Okay);
    assert!(text.ends_with("unexpected handshake response: Okay"), "{text}");
}

#[test]
fn the_active_display_is_remembered() {
    let mut client = BridgeClient::new("/tmp/b".to_string(), 1);
    for display in [Some(7), None] {
        let event = BridgeEvent::Hud {
            depth: 1,
            parent_title: None,
            keys: Vec::new(),
            active_display: display,
        };
        client.record_event(1, 1, event);
        assert_eq!(client.latest_hud.as_ref().unwrap().active_display, display);
    }
}

#[test]
fn old_events_make_room_for_new_ones() {
    let mut client = BridgeClient::new("/tmp/b".to_string(), 1);
    for id in 0..(EVENT_BUFFER_CAPACITY as u64 + 2) {
        client.record_event(
            id,
            id,
            BridgeEvent::WorldFocus {
                app: Some(FocusedApp { title: "t".to_string(), pid: 4 }),
                reconcile_seq: id,
            },
        );
    }
    assert_eq!(client.event_buffer_len(), EVENT_BUFFER_CAPACITY + 2);
    assert_eq!(client.events.len(), EVENT_BUFFER_CAPACITY);
    assert_eq!(client.events[0].id, 2);
    assert_eq!(client.latest_focus.as_ref().unwrap().reconcile_seq, 129);
    assert!(client.assert_no_new_events_since(EVENT_BUFFER_CAPACITY + 2).is_ok());
    assert_eq!(
        client.assert_no_new_events_since(EVENT_BUFFER_CAPACITY + 1).unwrap_err().describe(),
        "unexpected bridge message after shutdown: bridge event observed after shutdown: \
         WorldFocus { app: Some(FocusedApp { title: \"t\", pid: 4 }), reconcile_seq: 129 }"
    );
    assert_eq!(client.drain_events().len(), EVENT_BUFFER_CAPACITY);
    assert_eq!(client.event_buffer_len(), EVENT_BUFFER_CAPACITY + 2);
    client.clear_cached_state();
    assert_eq!(client.event_buffer_len(), 0);
    assert!(client.latest_focus.is_none());
}

#[test]
fn command_numbers_wrap_around() {
    let mut client = BridgeClient::new("/tmp/b".to_string(), 1);
    client.next_command_id = u64::MAX;
    client.bump_command_id();
    assert_eq!(client.next_command_id, 0);
}

#[test]
fn unbound_keys_are_tried_until_their_time_is_up() {
    let driver = ready("/tmp/hotki.sock", 1);
    let unbound = || DriverError::BridgeFailure { message: "KeyNotBound: x".to_string() };
    let mut key = driver.inject_key("cmd+x".to_string(), 100, 0).unwrap();
    assert_eq!(key.gate_ms, 300);
    assert!(matches!(key.next(Err(unbound()), MS), KeyStep::PauseThenPress(30)));
    assert!(matches!(key.next(Ok(()), 40 * MS), KeyStep::HoldThenRelease));
    assert!(matches!(key.next(Err(unbound()), 50 * MS), KeyStep::Done));

    let mut key = driver.inject_key("cmd+x".to_string(), 100, 0).unwrap();
    match key.next(Err(unbound()), 300 * MS) {
        KeyStep::Failed(err) => assert_eq!(
            err.describe(),
            "timed out after 300 ms waiting for binding 'cmd+x'"
        ),
        other => panic!("unexpected {:?}", other),
    }
    let mut key = driver.inject_key("cmd+x".to_string(), u64::MAX, 0).unwrap();
    assert_eq!(key.gate_ms, u64::MAX);
    assert!(matches!(
        key.next(Err(DriverError::NotInitialized), 0),
        KeyStep::Failed(DriverError::NotInitialized)
    ));
    assert!(message_contains_key_not_bound("x KeyNotBound y"));
    assert!(!message_contains_key_not_bound("key not bound"));
}

#[test]
fn missing_bindings_are_named_in_order() {
    let idents = vec!["s".to_string(), "d".to_string(), "n".to_string(), "d".to_string()];
    let (mut wait, step) = IdentWait::wait_for_idents(&idents, 100, 0);
    assert!(matches!(step, IdentStep::Fetch));
    assert_eq!(wait.remaining, vec!["d", "n", "s"]);
    let seen = vec![IdentWait::binding_name("\"n\""), "x".to_string()];
    assert!(matches!(
        wait.next(IdentEvent::Bindings(Ok(seen)), MS),
        IdentStep::Pause(30)
    ));
    assert!(matches!(wait.next(IdentEvent::Rested, 99 * MS), IdentStep::Fetch));
    match wait.next(IdentEvent::Rested, 100 * MS) {
        IdentStep::Failed(err) => assert_eq!(
            err.describe(),
            "timed out after 100 ms waiting for binding 'd, s'"
        ),
        other => panic!("unexpected {:?}", other),
    }
    let seen = vec!["s".to_string(), "d".to_string()];
    assert!(matches!(wait.next(IdentEvent::Bindings(Ok(seen)), MS), IdentStep::Done));
    assert!(matches!(
        wait.next(IdentEvent::Bindings(Err(DriverError::NotInitialized)), MS),
        IdentStep::Failed(DriverError::NotInitialized)
    ));
    let (_, step) = IdentWait::wait_for_idents(&Vec::new(), 0, 0);
    assert!(matches!(step, IdentStep::Done));
}

#[test]
fn texts_are_ordered_alphabetically() {
    assert!(text_before("a", "b"));
    assert!(text_before("a", "ab"));
    assert!(!text_before("ab", "a"));
    assert!(!text_before("a", "a"));
    assert!(text_before("", "a"));
    assert!(text_before("b", "\u{e9}"));
}

#[test]
fn configs_are_named_by_their_path() {
    let driver = ready("/tmp/hotki.sock", 1);
    let (call, _) = driver.set_config_from_path(Some("/tmp/c".to_string()), "/tmp/c").unwrap();
    assert!(matches!(call.request, BridgeRequest::SetConfig { ref path } if path == "/tmp/c"));
    let err = driver.set_config_from_path(None, "?").unwrap_err();
    assert_eq!(err.describe(), "bridge command failed: non-UTF-8 config path: ?");
    let (call, _) = driver.wait_for_world_seq(4, 9).unwrap();
    assert!(matches!(
        call.request,
        BridgeRequest::WaitForWorldSeq { target: 4, timeout_ms: 9 }
    ));
    assert_eq!(BridgeResponse::WorldSeq(5).into_world_seq().unwrap(), 5);
    assert_eq!(
        BridgeResponse::Bindings(vec!["n".to_string()]).into_bindings().unwrap(),
        vec!["n"]
    );
    assert_eq!(BridgeResponse::Snapshot("w".to_string()).into_snapshot().unwrap(), "w");
    assert!(driver.get_world_snapshot().is_ok());
}

#[test]
fn lost_connections_are_told_from_other_failures() {
    assert!(connection_lost(IoKind::BrokenPipe));
    assert!(connection_lost(IoKind::ConnectionReset));
    assert!(connection_lost(IoKind::ConnectionAborted));
    assert!(!connection_lost(IoKind::WouldBlock));
    let io = DriverError::Io { io_kind: IoKind::Other, reason: "r".to_string() };
    assert_eq!(describe_init_error(&io), "r");
    assert_eq!(
        describe_init_error(&DriverError::NotInitialized),
        "bridge connection not initialized"
    );
    assert!(!print_hints(&Error::HotkiBinNotFound).is_empty());
}
