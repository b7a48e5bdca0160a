//! Helper windows, key sequences and small cases.

use hotki::smoketest::driver::{KeySequence, SequenceEvent, SequenceStep};
use hotki::smoketest::error::{DriverError, Error};
use hotki::smoketest::helper_window::{
    is_frontmost_title, is_visible, wait_for_frontmost_title, wait_for_window_visible, HelperEvent,
    HelperStage, HelperStep, SpawnFrontmost,
};
use hotki::smoketest::repeat::{
    repeat_relay_throughput, repeat_shell_throughput, repeat_volume_throughput, RepeatWorkload,
};
use hotki::smoketest::timed_look::LookStep;
use hotki::smoketest::ui_case::{NoticeStep, NoticeWait};
use hotki::smoketest::world_case::{world_spaces_adoption, WorldSpacesMetrics};
use hotki::window::WindowInfo;

const MS: u64 = 1_000_000;

fn window(pid: i32, id: u32, title: &str) -> WindowInfo {
    WindowInfo {
        app: "app".to_string(),
        title: title.to_string(),
        pid,
        id,
        pos: None,
        space: None,
        layer: 0,
        focused: false,
        is_on_screen: true,
        on_active_space: true,
    }
}

#[test]
fn helpers_are_awaited_and_brought_to_the_front() {
    let (mut run, step) = SpawnFrontmost::spawn_frontmost("T".to_string(), 100, 10, 40);
    assert!(matches!(step, HelperStep::Spawn));
    assert!(matches!(run.next(HelperEvent::Spawned(7), 0), HelperStep::Look));
    assert!(matches!(run.next(HelperEvent::Looked(false), MS), HelperStep::Pause(10)));
    assert!(matches!(run.next(HelperEvent::Rested, 11 * MS), HelperStep::Look));
    assert!(matches!(run.next(HelperEvent::Looked(true), 12 * MS), HelperStep::ListAndRequest));
    assert!(matches!(run.next(HelperEvent::Requested, 13 * MS), HelperStep::PauseAndWait(40)));
    assert!(matches!(run.next(HelperEvent::Fronted(false), 93 * MS), HelperStep::ListAndRequest));
    run.next(HelperEvent::Requested, 94 * MS);
    assert!(matches!(run.next(HelperEvent::Fronted(true), 140 * MS), HelperStep::Finish(Ok(7))));
    assert_eq!(run.stage, HelperStage::Over);
}

#[test]
fn helpers_that_stay_behind_are_given_up_after_three_attempts() {
    let (mut run, _) = SpawnFrontmost::spawn_frontmost("T".to_string(), 100, 10, 40);
    run.next(HelperEvent::Spawned(7), 0);
    let mut step = run.next(HelperEvent::Looked(true), 0);
    let mut attempts = 0;
    while matches!(step, HelperStep::ListAndRequest) {
        attempts += 1;
        run.next(HelperEvent::Requested, 0);
        step = run.next(HelperEvent::Fronted(false), 0);
    }
    assert_eq!(attempts, 3);
    assert!(matches!(step, HelperStep::Finish(Ok(7))));
}

#[test]
fn helpers_that_do_not_show_are_an_error() {
    let (mut run, _) = SpawnFrontmost::spawn_frontmost("T".to_string(), 100, 10, 40);
    run.next(HelperEvent::Spawned(7), 0);
    run.next(HelperEvent::Looked(false), 99 * MS);
    match run.next(HelperEvent::Rested, 100 * MS) {
        HelperStep::Finish(Err(err)) => assert_eq!(
            err.describe(),
            "not observed within 100 ms: helper window 'T' not visible"
        ),
        other => panic!("unexpected {:?}", other),
    }
    let (mut run, _) = SpawnFrontmost::spawn_frontmost("T".to_string(), 100, 10, 40);
    let step = run.next(HelperEvent::SpawnFailed("no".to_string()), 0);
    assert!(matches!(step, HelperStep::Finish(Err(Error::SpawnFailed(why))) if why == "no"));
}

#[test]
fn windows_are_visible_when_listed_or_known() {
    let all = vec![window(1, 10, "A"), window(2, 11, "B")];
    assert!(is_visible(&all, 2, "B", false));
    assert!(!is_visible(&all, 1, "B", false));
    assert!(is_visible(&all, 1, "B", true));
    assert!(is_frontmost_title(&Some(window(1, 10, "A")), "A"));
    assert!(!is_frontmost_title(&Some(window(1, 10, "A")), "B"));
    assert!(!is_frontmost_title(&None, "A"));
    let (wait, step) = wait_for_window_visible(20, 7, 0);
    assert_eq!((wait.deadline, wait.pause_ms, step), (20 * MS as u128, 7, LookStep::Look));
    let (wait, step) = wait_for_frontmost_title(0, 0);
    assert_eq!((wait.pause_ms, step), (5, LookStep::Over(false)));
}

#[test]
fn keys_are_injected_in_order_until_one_fails() {
    let (mut keys, step) = KeySequence::inject_sequence(2, 30);
    assert!(matches!(step, SequenceStep::Inject(0)));
    assert!(matches!(keys.next(SequenceEvent::Injected(Ok(()))), SequenceStep::Pause(30)));
    assert!(matches!(keys.next(SequenceEvent::Rested), SequenceStep::Inject(1)));
    let failed = keys.next(SequenceEvent::Injected(Err(DriverError::NotInitialized)));
    assert!(matches!(failed, SequenceStep::Failed(DriverError::NotInitialized)));
    let (mut keys, _) = KeySequence::inject_sequence(1, 30);
    keys.next(SequenceEvent::Injected(Ok(())));
    assert!(matches!(keys.next(SequenceEvent::Rested), SequenceStep::Done));
    let (_, step) = KeySequence::inject_sequence(0, 30);
    assert!(matches!(step, SequenceStep::Done));
}

#[test]
fn repeat_cases_know_what_they_repeat_and_how_long() {
    assert_eq!(repeat_relay_throughput(500).workload, RepeatWorkload::Relay);
    assert_eq!(repeat_shell_throughput(500).duration_ms, 500);
    assert_eq!(repeat_volume_throughput(500, 2_000).duration_ms, 2_000);
    assert_eq!(repeat_volume_throughput(3_000, 2_000).duration_ms, 3_000);
}

#[test]
fn notifications_are_awaited_from_the_start() {
    let wait = NoticeWait::wait_for_notification_window(100, 5 * MS);
    assert!(matches!(wait.look(false, 6 * MS, 6 * MS), NoticeStep::Pause(ns) if ns == 30 * MS));
    assert!(matches!(wait.look(false, 105 * MS, 105 * MS), NoticeStep::ListAll));
    assert!(matches!(wait.look(true, 105 * MS, 105 * MS), NoticeStep::Done));
}

#[test]
fn the_change_of_spaces_is_logged() {
    let metrics = WorldSpacesMetrics { adoption_ms: 12, last_tick_ms: 3, current_poll_ms: 40 };
    assert_eq!(
        world_spaces_adoption(&metrics),
        "slug=world.spaces.adoption adoption_ms=12 last_tick_ms=3 current_poll_ms=40"
    );
}
