//! Gestures through the relay, with posters that record, count or fail.

use hotki::relaykey::{
    mod_keycodes, modifier_events, needs_hotki_tag, Chord, Error, Key, Modifier, Modifiers, Posted,
    Poster, RecordingPoster, RelayDestination, RelayKey, SharedRelay,
};

const A: Key = Key { scancode: 0x00 };
const B: Key = Key { scancode: 0x0B };
const RIGHT_ARROW: Key = Key { scancode: 0x7C };

fn key(code: Key) -> Chord {
    Chord { key: code, modifiers: Modifiers::none() }
}

#[derive(Default)]
struct CountingPoster {
    downs: usize,
    repeat_downs: usize,
    ups: usize,
}

impl Poster for CountingPoster {
    fn post_down(
        &mut self,
        _key: &Chord,
        is_repeat: bool,
        _destination: RelayDestination,
    ) -> Result<(), Error> {
        self.downs += 1;
        if is_repeat {
            self.repeat_downs += 1;
        }
        Ok(())
    }

    fn post_up(&mut self, _key: &Chord, _destination: RelayDestination) -> Result<(), Error> {
        self.ups += 1;
        Ok(())
    }

    fn post_modifiers(
        &mut self,
        _mods: &Modifiers,
        _down: bool,
        _destination: RelayDestination,
    ) -> Result<(), Error> {
        Ok(())
    }
}

fn counts(rk: &RelayKey<CountingPoster>) -> (usize, usize, usize) {
    let poster = rk.poster().unwrap();
    (poster.downs, poster.repeat_downs, poster.ups)
}

#[test]
fn basic_down_up_no_repeat() {
    let mut rk = RelayKey::new(CountingPoster::default());
    rk.begin("a".to_string(), key(A), RelayDestination::Hid);
    assert!(rk.end("a"));
    assert_eq!(counts(&rk).0, 1);
    assert_eq!(counts(&rk).2, 1);
}

#[test]
fn multiple_gestures_release_independently() {
    let mut rk = RelayKey::new(CountingPoster::default());
    rk.begin("a".to_string(), key(A), RelayDestination::Hid);
    rk.begin("b".to_string(), key(B), RelayDestination::Hid);
    assert!(rk.end("b"));
    assert_eq!(counts(&rk).0, 2);
    assert_eq!(counts(&rk).2, 1);
    rk.release_all();
    assert_eq!(counts(&rk).2, 2);
}

#[test]
fn ending_unknown_gesture_is_a_noop() {
    let mut rk = RelayKey::new(CountingPoster::default());
    assert!(!rk.end("missing"));
    assert_eq!(counts(&rk).0, 0);
    assert_eq!(counts(&rk).2, 0);
}

#[test]
fn repeats_are_forwarded() {
    let mut rk = RelayKey::new(CountingPoster::default());
    let destination = RelayDestination::Process(42);
    rk.begin("arrow".to_string(), key(RIGHT_ARROW), destination);
    assert!(rk.repeat("arrow"));
    assert!(rk.end("arrow"));
    assert_eq!(counts(&rk).0, 2);
    assert_eq!(counts(&rk).1, 1);
    assert_eq!(counts(&rk).2, 1);
}

#[test]
fn hid_destination_is_preserved_through_balanced_modified_gesture() {
    let mut relay = RelayKey::new(RecordingPoster::new());
    let destination = RelayDestination::Hid;
    let mods = Modifiers::none().with(Modifier::Command).with(Modifier::Shift);
    let chord = Chord { key: A, modifiers: mods };

    relay.begin("modified".to_string(), chord, destination);
    assert!(relay.repeat("modified"));
    assert!(relay.end("modified"));

    assert_eq!(
        relay.poster().unwrap().events(),
        vec![
            Posted::Modifiers(mods, true, destination),
            Posted::Down(chord, false, destination),
            Posted::Down(chord, true, destination),
            Posted::Up(chord, destination),
            Posted::Modifiers(mods, false, destination),
        ]
    );
}

#[test]
fn process_destination_posts_only_main_key_events() {
    let mut relay = RelayKey::new(RecordingPoster::new());
    let destination = RelayDestination::Process(731);
    let chord = Chord { key: A, modifiers: Modifiers::none().with(Modifier::Shift) };

    relay.begin("process".to_string(), chord, destination);
    assert!(relay.repeat("process"));
    assert!(relay.end("process"));

    assert_eq!(
        relay.poster().unwrap().events(),
        vec![
            Posted::Down(chord, false, destination),
            Posted::Down(chord, true, destination),
            Posted::Up(chord, destination),
        ]
    );
}

#[test]
fn replacing_gesture_balances_previous_destination_first() {
    let mut relay = RelayKey::new(RecordingPoster::new());
    let first = RelayDestination::Process(1);
    let second = RelayDestination::Process(2);

    relay.begin("same".to_string(), key(A), first);
    relay.begin("same".to_string(), key(B), second);
    assert!(relay.end("same"));

    assert_eq!(
        relay.poster().unwrap().events(),
        vec![
            Posted::Down(key(A), false, first),
            Posted::Up(key(A), first),
            Posted::Down(key(B), false, second),
            Posted::Up(key(B), second),
        ]
    );
}

#[test]
fn only_hid_events_need_the_hotki_marker() {
    assert!(needs_hotki_tag(RelayDestination::Hid));
    assert!(!needs_hotki_tag(RelayDestination::Process(731)));
}

struct FailingPoster {
    ups: usize,
    fail_down: bool,
    fail_up: bool,
}

impl Poster for FailingPoster {
    fn post_down(
        &mut self,
        _key: &Chord,
        _is_repeat: bool,
        _destination: RelayDestination,
    ) -> Result<(), Error> {
        if self.fail_down { Err(Error::EventCreate) } else { Ok(()) }
    }

    fn post_up(&mut self, _key: &Chord, _destination: RelayDestination) -> Result<(), Error> {
        self.ups += 1;
        if self.fail_up { Err(Error::EventCreate) } else { Ok(()) }
    }

    fn post_modifiers(
        &mut self,
        _mods: &Modifiers,
        _down: bool,
        _destination: RelayDestination,
    ) -> Result<(), Error> {
        Ok(())
    }
}

#[test]
fn failed_down_remains_releasable() {
    let mut rk = RelayKey::new(FailingPoster { ups: 0, fail_down: true, fail_up: false });
    rk.begin("failed".to_string(), key(A), RelayDestination::Process(7));
    assert!(rk.repeat("failed"));
    assert!(rk.end("failed"));
    assert_eq!(rk.poster().unwrap().ups, 1);
}

#[test]
fn disabled_relayer_tracks_complete_gestures() {
    let mut relay: RelayKey<RecordingPoster> = RelayKey::disabled();

    relay.begin("disabled".to_string(), key(A), RelayDestination::Hid);

    assert!(relay.repeat("disabled"));
    assert!(relay.end("disabled"));
    assert!(!relay.repeat("disabled"));
    assert!(relay.poster().is_none());
}

#[test]
fn release_all_attempts_every_gesture_after_posting_failure() {
    let mut relay = RelayKey::new(FailingPoster { ups: 0, fail_down: false, fail_up: true });
    relay.begin("a".to_string(), key(A), RelayDestination::Hid);
    relay.begin("b".to_string(), key(B), RelayDestination::Hid);

    relay.release_all();

    assert_eq!(relay.poster().unwrap().ups, 2);
    assert!(!relay.end("a"));
    assert!(!relay.end("b"));
}

#[test]
fn test_mod_keycodes_preserves_both_variants() {
    let mods = Modifiers::none()
        .with(Modifier::Shift)
        .with(Modifier::RightShift)
        .with(Modifier::Command)
        .with(Modifier::RightCommand);

    let keycodes = mod_keycodes(&mods);
    assert_eq!(keycodes.len(), 4);
    assert!(keycodes.contains(&Modifier::Shift.keycode()));
    assert!(keycodes.contains(&Modifier::RightShift.keycode()));
    assert!(keycodes.contains(&Modifier::Command.keycode()));
    assert!(keycodes.contains(&Modifier::RightCommand.keycode()));
}

#[test]
fn modifiers_are_released_in_reverse_order() {
    let mods = Modifiers::none().with(Modifier::Command).with(Modifier::Control);
    assert_eq!(modifier_events(&mods, true), vec![0x3B, 0x37]);
    assert_eq!(modifier_events(&mods, false), vec![0x37, 0x3B]);
    assert_eq!(modifier_events(&Modifiers::none(), true), Vec::<u16>::new());
}

#[test]
fn relay_errors_have_their_messages() {
    assert_eq!(Error::EventSource.describe(), "Failed to create CGEventSource");
    assert_eq!(Error::EventCreate.describe(), "Failed to create CGEvent");
    assert_eq!(
        Error::PermissionDenied("Accessibility").describe(),
        "Permission denied: Accessibility"
    );
    assert!(matches!(
        hotki::relaykey::creation_error(false, true),
        Error::PermissionDenied("Accessibility")
    ));
    assert!(matches!(hotki::relaykey::creation_error(true, true), Error::EventSource));
    assert!(matches!(hotki::relaykey::creation_error(true, false), Error::EventCreate));
}

#[test]
fn every_press_is_matched_by_a_release() {
    let mut relay = RelayKey::new(RecordingPoster::new());
    let chord = Chord { key: A, modifiers: Modifiers::none().with(Modifier::Option) };
    relay.begin("one".to_string(), chord, RelayDestination::Hid);
    relay.begin("two".to_string(), key(B), RelayDestination::Process(3));
    relay.begin("one".to_string(), key(B), RelayDestination::Process(4));
    relay.repeat("two");
    relay.release_all();
    let mut keys: i32 = 0;
    let mut mods: i32 = 0;
    for event in relay.poster().unwrap().events() {
        match event {
            Posted::Down(_, false, _) => keys += 1,
            Posted::Down(_, true, _) => {}
            Posted::Up(_, _) => keys -= 1,
            Posted::Modifiers(_, true, _) => mods += 1,
            Posted::Modifiers(_, false, _) => mods -= 1,
        }
        assert!(keys >= 0 && mods >= 0);
    }
    assert_eq!((keys, mods), (0, 0));
}

#[test]
fn dropping_clone_does_not_release_active_gesture() {
    let mut relay = SharedRelay::new(RelayKey::new(CountingPoster::default()));
    relay.relay.begin("a".to_string(), key(A), RelayDestination::Hid);

    relay.share();
    relay.drop_owner();

    assert_eq!(counts(&relay.relay).2, 0);
    assert!(relay.relay.end("a"));
    assert_eq!(counts(&relay.relay).2, 1);
}

#[test]
fn dropping_last_handle_releases_all_gestures() {
    let mut relay = SharedRelay::new(RelayKey::new(CountingPoster::default()));
    relay.relay.begin("a".to_string(), key(A), RelayDestination::Hid);
    relay.relay.begin("b".to_string(), key(B), RelayDestination::Hid);

    relay.drop_owner();

    assert_eq!(counts(&relay.relay).2, 2);
}
