//! Events and answers of the bridge as messages show them.

use vstd::prelude::*;
use vstd::string::*;

use crate::smoketest::bridge::{
    BridgeEvent, BridgeHandshake, BridgeResponse, FocusedApp, HudKey, IdleTimer, Notification,
};
use crate::smoketest::dump::{
    dump_list, dump_optional_text, dump_text, list_dump, optional_text_dump, text_dump,
};
use crate::smoketest::windows::display_dump;
use crate::text::{
    bool_text, bool_word, dec, dec_int, decimal, decimal_signed, option_dump, option_text, texts,
};

verus! {

/// A key that the HUD shows.
pub open spec fn key_dump(k: HudKey) -> Seq<char> {
    "HudKey { ident: "@ + text_dump(k.ident@) + ", description: "@ + text_dump(k.description@)
        + ", is_mode: "@ + bool_word(k.is_mode) + " }"@
}

fn dump_key(k: &HudKey) -> (s: String)
    ensures
        s@ == key_dump(*k),
{
    let mut s = "HudKey { ident: ".to_owned();
    s.append(dump_text(k.ident.as_str()).as_str());
    s.append(", description: ");
    s.append(dump_text(k.description.as_str()).as_str());
    s.append(", is_mode: ");
    s.append(bool_text(k.is_mode));
    s.append(" }");
    s
}

/// Each key that the HUD shows.
pub open spec fn key_dumps(keys: Seq<HudKey>) -> Seq<Seq<char>> {
    Seq::new(keys.len(), |i: int| key_dump(keys[i]))
}

fn dump_keys(keys: &Vec<HudKey>) -> (s: String)
    ensures
        s@ == list_dump(key_dumps(keys@)),
{
    let mut parts: Vec<String> = Vec::new();
    let mut i: usize = 0;
    while i < keys.len()
        invariant
            i <= keys@.len(),
            texts(parts@) =~= key_dumps(keys@).take(i as int),
        decreases keys@.len() - i,
    {
        let ghost before = parts@;
        parts.push(dump_key(&keys[i]));
        assert(texts(parts@) =~= texts(before).push(key_dump(keys@[i as int])));
        i = i + 1;
    }
    assert(texts(parts@) =~= key_dumps(keys@));
    dump_list(&parts)
}

/// The application that has the focus.
pub open spec fn app_dump(app: Option<FocusedApp>) -> Seq<char> {
    match app {
        Some(a) => "Some(FocusedApp { title: "@ + text_dump(a.title@) + ", pid: "@ + dec_int(
            a.pid as int,
        ) + " })"@,
        None => "None"@,
    }
}

fn dump_app(app: &Option<FocusedApp>) -> (s: String)
    ensures
        s@ == app_dump(*app),
{
    match app {
        Some(a) => {
            let mut s = "Some(FocusedApp { title: ".to_owned();
            s.append(dump_text(a.title.as_str()).as_str());
            s.append(", pid: ");
            s.append(decimal_signed(a.pid as i64).as_str());
            s.append(" })");
            s
        },
        None => "None".to_owned(),
    }
}

fn dump_display(id: Option<u32>) -> (s: String)
    ensures
        s@ == display_dump(id),
{
    match id {
        Some(id) => option_text(Some(id as u64)),
        None => option_text(None),
    }
}

/// An event of the bridge.
pub open spec fn event_dump(e: BridgeEvent) -> Seq<char> {
    match e {
        BridgeEvent::Hud { depth, parent_title, keys, active_display } => "Hud { depth: "@ + dec(depth as nat)
            + ", parent_title: "@ + optional_text_dump(parent_title) + ", keys: "@ + list_dump(
            key_dumps(keys@),
        ) + ", active_display: "@ + display_dump(active_display) + " }"@,
        BridgeEvent::WorldFocus { app, reconcile_seq } => "WorldFocus { app: "@ + app_dump(app)
            + ", reconcile_seq: "@ + dec(reconcile_seq as nat) + " }"@,
    }
}

/// An event of the bridge.
pub fn dump_event(e: &BridgeEvent) -> (s: String)
    ensures
        s@ == event_dump(*e),
{
    match e {
        BridgeEvent::Hud { depth, parent_title, keys, active_display } => {
            let mut s = "Hud { depth: ".to_owned();
            s.append(decimal(*depth as u64).as_str());
            s.append(", parent_title: ");
            s.append(dump_optional_text(parent_title).as_str());
            s.append(", keys: ");
            s.append(dump_keys(keys).as_str());
            s.append(", active_display: ");
            s.append(dump_display(*active_display).as_str());
            s.append(" }");
            s
        },
        BridgeEvent::WorldFocus { app, reconcile_seq } => {
            let mut s = "WorldFocus { app: ".to_owned();
            s.append(dump_app(app).as_str());
            s.append(", reconcile_seq: ");
            s.append(decimal(*reconcile_seq).as_str());
            s.append(" }");
            s
        },
    }
}

/// The idle timer of the server.
pub open spec fn timer_dump(t: IdleTimer) -> Seq<char> {
    "IdleTimer { timeout_secs: "@ + dec(t.timeout_secs as nat) + ", armed: "@ + bool_word(t.armed)
        + ", deadline_ms: "@ + option_dump(t.deadline_ms) + ", clients_connected: "@ + dec(
        t.clients_connected as nat,
    ) + " }"@
}

fn dump_timer(t: &IdleTimer) -> (s: String)
    ensures
        s@ == timer_dump(*t),
{
    let mut s = "IdleTimer { timeout_secs: ".to_owned();
    s.append(decimal(t.timeout_secs).as_str());
    s.append(", armed: ");
    s.append(bool_text(t.armed));
    s.append(", deadline_ms: ");
    s.append(option_text(t.deadline_ms).as_str());
    s.append(", clients_connected: ");
    s.append(decimal(t.clients_connected as u64).as_str());
    s.append(" }");
    s
}

/// A notification that is pending.
pub open spec fn notification_dump(n: Notification) -> Seq<char> {
    "Notification { title: "@ + text_dump(n.title@) + ", text: "@ + text_dump(n.text@) + " }"@
}

/// Each notification that is pending.
pub open spec fn notification_dumps(list: Seq<Notification>) -> Seq<Seq<char>> {
    Seq::new(list.len(), |i: int| notification_dump(list[i]))
}

fn dump_notifications(list: &Vec<Notification>) -> (s: String)
    ensures
        s@ == list_dump(notification_dumps(list@)),
{
    let mut parts: Vec<String> = Vec::new();
    let mut i: usize = 0;
    while i < list.len()
        invariant
            i <= list@.len(),
            texts(parts@) =~= notification_dumps(list@).take(i as int),
        decreases list@.len() - i,
    {
        let ghost before = parts@;
        let mut part = "Notification { title: ".to_owned();
        part.append(dump_text(list[i].title.as_str()).as_str());
        part.append(", text: ");
        part.append(dump_text(list[i].text.as_str()).as_str());
        part.append(" }");
        parts.push(part);
        assert(texts(parts@) =~= texts(before).push(notification_dump(list@[i as int])));
        i = i + 1;
    }
    assert(texts(parts@) =~= notification_dumps(list@));
    dump_list(&parts)
}

/// What the bridge says when a session begins.
pub open spec fn handshake_dump(h: BridgeHandshake) -> Seq<char> {
    "BridgeHandshake { idle_timer: "@ + timer_dump(h.idle_timer) + ", notifications: "@ + list_dump(
        notification_dumps(h.notifications@),
    ) + " }"@
}

/// Each text of a list.
pub open spec fn text_dumps(list: Seq<String>) -> Seq<Seq<char>> {
    Seq::new(list.len(), |i: int| text_dump(list[i]@))
}

fn dump_texts(list: &Vec<String>) -> (s: String)
    ensures
        s@ == list_dump(text_dumps(list@)),
{
    let mut parts: Vec<String> = Vec::new();
    let mut i: usize = 0;
    while i < list.len()
        invariant
            i <= list@.len(),
            texts(parts@) =~= text_dumps(list@).take(i as int),
        decreases list@.len() - i,
    {
        let ghost before = parts@;
        parts.push(dump_text(list[i].as_str()));
        assert(texts(parts@) =~= texts(before).push(text_dump(list@[i as int]@)));
        i = i + 1;
    }
    assert(texts(parts@) =~= text_dumps(list@));
    dump_list(&parts)
}

/// An answer of the bridge.
pub open spec fn response_dump(r: BridgeResponse) -> Seq<char> {
    match r {
        BridgeResponse::Ack { queued } => "Ack { queued: "@ + dec(queued as nat) + " }"@,
        BridgeResponse::Okay => "Okay"@,
        BridgeResponse::Failure { message } => "Failure { message: "@ + text_dump(message@) + " }"@,
        BridgeResponse::Handshake(h) => "Handshake("@ + handshake_dump(h) + ")"@,
        BridgeResponse::Bindings(list) => "Bindings("@ + list_dump(text_dumps(list@)) + ")"@,
        BridgeResponse::Depth(depth) => "Depth("@ + dec(depth as nat) + ")"@,
        BridgeResponse::WorldSeq(n) => "WorldSeq("@ + dec(n as nat) + ")"@,
        BridgeResponse::Snapshot(text) => "Snapshot("@ + text_dump(text@) + ")"@,
        BridgeResponse::Event(e) => "Event("@ + event_dump(e) + ")"@,
    }
}

/// An answer of the bridge.
pub fn dump_response(r: &BridgeResponse) -> (s: String)
    ensures
        s@ == response_dump(*r),
{
    match r {
        BridgeResponse::Ack { queued } => {
            let mut s = "Ack { queued: ".to_owned();
            s.append(decimal(*queued as u64).as_str());
            s.append(" }");
            s
        },
        BridgeResponse::Okay => "Okay".to_owned(),
        BridgeResponse::Failure { message } => {
            let mut s = "Failure { message: ".to_owned();
            s.append(dump_text(message.as_str()).as_str());
            s.append(" }");
            s
        },
        BridgeResponse::Handshake(h) => {
            let mut inner = "BridgeHandshake { idle_timer: ".to_owned();
            inner.append(dump_timer(&h.idle_timer).as_str());
            inner.append(", notifications: ");
            inner.append(dump_notifications(&h.notifications).as_str());
            inner.append(" }");
            let mut s = "Handshake(".to_owned();
            s.append(inner.as_str());
            s.append(")");
            s
        },
        BridgeResponse::Bindings(list) => {
            let mut s = "Bindings(".to_owned();
            s.append(dump_texts(list).as_str());
            s.append(")");
            s
        },
        BridgeResponse::Depth(depth) => {
            let mut s = "Depth(".to_owned();
            s.append(decimal(*depth as u64).as_str());
            s.append(")");
            s
        },
        BridgeResponse::WorldSeq(n) => {
            let mut s = "WorldSeq(".to_owned();
            s.append(decimal(*n).as_str());
            s.append(")");
            s
        },
        BridgeResponse::Snapshot(text) => {
            let mut s = "Snapshot(".to_owned();
            s.append(dump_text(text.as_str()).as_str());
            s.append(")");
            s
        },
        BridgeResponse::Event(e) => {
            let mut s = "Event(".to_owned();
            s.append(dump_event(e).as_str());
            s.append(")");
            s
        },
    }
}

} // verus!
