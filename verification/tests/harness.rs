//! Runs of many tests, helpers, repeats and the world service.

use hotki::smoketest::config::{
    ms, remaining_ms, InputDelays, Retry, RunBudget, WarnOverlayConfig,
};
use hotki::smoketest::helper_window::{
    front_request, helper_with_options, judge_visible, EnsureFrontmost, FrontEvent, FrontRequest,
    FrontStep, HelperWindowBuilder,
};
use hotki::smoketest::orchestrator::{
    captured_streams, exit_code, heading, log_config_for_child, place_flex_args, run_all_tests,
    run_sequence_tests, subtest_args, to_subcmd, trim_end, unresolved_message, unspawned_message,
    wants_overlay, ChildState, SeqTest, SubtestIo, WatchStep, Watchdog, WATCHDOG_OVERHEAD_MS,
};
use hotki::smoketest::proc_registry::{register, snapshot, unregister, ProcRegistry};
use hotki::smoketest::process::{
    build_hotki_app, kill_and_wait, ChildEvent, ChildStep, ChildWait,
};
use hotki::smoketest::repeat::{
    judge_restore, original_volume, osascript_failure, parse_volume, repeat_output, repeat_stats,
    repeats_in_log, repeats_in_volume, restore_level, set_volume_script, sh_single_quote,
    shell_command, shutdown_repeater, volume_command, workload_of, RelayClock, RepeatWorkload,
};
use hotki::smoketest::results::{RepeatType, TestDetails, TestOutcome, WindowOperation};
use hotki::smoketest::world_case::{
    describe_props, judge_props, simulated_windows, status_log, win, world_cfg_fast,
    world_status_permissions, AxProps, FocusedWindow, PropsStep, PropsWait, SpaceWindow,
    SpacesAction, SpacesEvent, SpacesRun, WorldStatus,
};
use hotki::permissions::PermissionState;
use hotki::window::WindowInfo;

const MS: u64 = 1_000_000;

fn info(pid: i32, id: u32, title: &str) -> WindowInfo {
    WindowInfo {
        app: "App".to_string(),
        title: title.to_string(),
        pid,
        id,
        pos: None,
        space: None,
        layer: 0,
        focused: false,
        is_on_screen: true,
        on_active_space: true,
    }
}

#[test]
fn watchdog_kills_hung_child() {
    let dog = Watchdog::start(25, 50, 0, 0);
    assert_eq!(dog.look(ChildState::Running, 0), WatchStep::Pause(30));
    assert_eq!(dog.look(ChildState::Running, 75 * MS - 1), WatchStep::Pause(30));
    assert_eq!(dog.look(ChildState::Running, 75 * MS), WatchStep::KillAndReap);
    assert_eq!(dog.look(ChildState::Exited(true), 80 * MS), WatchStep::Over(true));
    assert_eq!(dog.look(ChildState::Exited(false), 0), WatchStep::Over(false));
    assert_eq!(dog.look(ChildState::Unknown, 0), WatchStep::Over(false));
    let dog = Watchdog::start(u64::MAX, WATCHDOG_OVERHEAD_MS, u64::MAX, u64::MAX);
    assert_eq!(dog.look(ChildState::Running, u64::MAX), WatchStep::Pause(30));
}

#[test]
fn exhausted_wait_budget_forces_and_reaps_child() {
    let mut registry = ProcRegistry::new();
    register(&mut registry, 42);
    let mut child = ChildWait::wait_with_budget(42);

    assert!(matches!(child.next(ChildEvent::TimedOut), ChildStep::Kill));
    match child.next(ChildEvent::Exited(9)) {
        ChildStep::Finish { reap, unregister: leaves, result } => {
            let (_status, forced) = result.expect("force and reap child");
            assert!(forced);
            assert!(!reap);
            if leaves {
                unregister(&mut registry, 42);
            }
        }
        other => panic!("unexpected {:?}", other),
    }
    assert!(!snapshot(&registry).contains(&42));
}

#[test]
fn children_that_cannot_be_awaited_are_reported() {
    let text = |forced: bool, event: ChildEvent| {
        let mut wait = ChildWait { pid: 7, forced };
        match wait.next(event) {
            ChildStep::Finish { result, .. } => result.unwrap_err().describe(),
            other => panic!("unexpected {:?}", other),
        }
    };
    assert_eq!(
        text(false, ChildEvent::NotOwned),
        "invalid test state: child process 7 is no longer owned"
    );
    assert_eq!(
        text(false, ChildEvent::WaiterLost("x".to_string())),
        "invalid test state: child process 7 waiter disconnected"
    );
    assert_eq!(
        text(true, ChildEvent::WaiterLost("x".to_string())),
        "invalid test state: child process 7 waiter disconnected after forced termination: x"
    );
    assert_eq!(text(false, ChildEvent::WaitFailed("w".to_string())), "I/O error: w");
    assert!(kill_and_wait(None).is_ok());
    assert!(kill_and_wait(Some((Ok(()), Ok(())))).is_ok());
    assert_eq!(
        kill_and_wait(Some((Err("k".to_string()), Ok(())))).unwrap_err().describe(),
        "I/O error: k"
    );
    assert_eq!(
        build_hotki_app(true),
        vec!["build", "-p", "hotki-app", "--bin", "hotki-app", "--release"]
    );
    assert_eq!(build_hotki_app(false).len(), 5);
}

#[test]
fn subtests_are_called_with_their_options() {
    let extra = vec!["--x".to_string()];
    assert_eq!(
        subtest_args("raise", 5, 25, &extra, SubtestIo::CaptureQuiet),
        vec!["--quiet", "--no-warn", "--duration", "5", "--timeout", "25", "raise", "--x"]
    );
    let io = SubtestIo::Inherit { logs: true };
    assert!(io.inherits_stdio() && io.logs_enabled() && !io.quiet_capture());
    assert_eq!(
        subtest_args("ui", 5, 25, &Vec::new(), io),
        vec!["--duration", "5", "--timeout", "25", "--logs", "ui"]
    );
    assert!(!SubtestIo::Inherit { logs: false }.logs_enabled());
    assert_eq!(heading("Test: ui"), "\n==> Test: ui");
    assert_eq!(
        unresolved_message("w"),
        "orchestrator: failed to resolve current_exe: w"
    );
    assert_eq!(
        unspawned_message("ui", "w"),
        "orchestrator: failed to spawn subtest 'ui': w"
    );
    assert!(log_config_for_child().ends_with(",mrpc::connection=off"));
}

#[test]
fn captured_output_is_shown_errors_first() {
    assert_eq!(
        captured_streams("out \n", "err\n\n"),
        vec!["--- stderr ---\nerr", "--- stdout ---\nout"]
    );
    assert!(captured_streams(" \n", "").is_empty());
    assert_eq!(captured_streams("o", ""), vec!["--- stdout ---\no"]);
    assert_eq!(trim_end(" a\u{2003}\t"), " a");
}

#[test]
fn all_tests_run_in_their_order() {
    let plan = run_all_tests(10, 20, false, 30, (3, 4));
    let names: Vec<&str> = plan.iter().map(|t| t.name).collect();
    assert_eq!(names.len(), 26);
    assert_eq!(&names[..3], &["world-status", "world-ax", "world-spaces"]);
    assert_eq!(&names[24..], &["ui", "minui"]);
    let volume = plan.iter().find(|t| t.name == "repeat-volume").unwrap();
    assert_eq!(volume.duration_ms, 30);
    let nav = plan.iter().find(|t| t.name == "focus-nav").unwrap();
    assert_eq!((nav.timeout_ms, nav.extra_watchdog_ms, nav.counts), (10_020, 10_000, false));
    let slow = plan.iter().find(|t| t.name == "place-minimized").unwrap();
    assert_eq!((slow.timeout_ms, slow.extra_watchdog_ms, slow.counts), (60_020, 60_000, true));
    let flex: Vec<&str> = plan.iter().filter_map(|t| t.flex).map(|f| f.1).collect();
    assert_eq!(
        flex,
        vec![
            "2x2 BR, force size->pos",
            "TL, pos-first-only",
            "BL, normal",
            "2x2 BR, force shrink->move->grow",
        ]
    );
    let (cfg, _) = plan.iter().filter_map(|t| t.flex).nth(1).unwrap();
    assert_eq!(
        place_flex_args(&cfg),
        vec![
            "place-flex", "--cols", "3", "--rows", "4", "--col", "0", "--row", "0",
            "--pos-first-only"
        ]
    );
    let mut passed = vec![true; plan.len()];
    passed[25] = false;
    assert_eq!(exit_code(&plan, &passed), 0);
    passed[0] = false;
    assert_eq!(exit_code(&plan, &passed), 1);
    passed[0] = true;
    passed.truncate(3);
    assert_eq!(exit_code(&plan, &passed), 1);
    let fake = run_all_tests(10, 20, true, 30, (3, 4));
    assert_eq!(fake.len(), 1);
    assert_eq!(fake[0].name, "place-fake");
    assert!(wants_overlay(true, false));
    assert!(!wants_overlay(true, true));
}

#[test]
fn listed_tests_run_one_after_the_other() {
    assert_eq!(run_sequence_tests(&Vec::new(), 1, 2, 3).unwrap_err(), 2);
    let tests = vec![SeqTest::RepeatVolume, SeqTest::Focus];
    let plan = run_sequence_tests(&tests, 1, 2, 3).unwrap();
    assert_eq!((plan[0].name, plan[0].duration_ms), ("repeat-volume", 3));
    assert_eq!((plan[1].name, plan[1].duration_ms), ("focus-tracking", 1));
    assert_eq!(to_subcmd(SeqTest::Minui), "minui");
    assert_eq!(to_subcmd(SeqTest::WorldSpaces), "world-spaces");
}

#[test]
fn helpers_are_started_with_their_options() {
    let plain = HelperWindowBuilder::new("T".to_string());
    assert_eq!(
        plain.configure_command(),
        vec!["focus-winhelper", "--title", "T", "--time", "30000"]
    );
    let full = HelperWindowBuilder::new("T".to_string())
        .with_time_ms(5)
        .with_delay_apply_grid(50, 2, 2, 1, 0)
        .with_tween_ms(120)
        .with_grid(3, 1, 2, 0)
        .with_size(640 * 1024, 480 * 1024 + 512)
        .with_position(-10 * 1024, 0)
        .with_label_text("L".to_string())
        .with_min_size(0, 2_048)
        .with_step_size(9 * 1024, 18 * 1024)
        .with_start_minimized(true)
        .with_start_zoomed(true)
        .with_nonmovable(true)
        .with_nonresizable(true)
        .with_attach_sheet(true);
    assert_eq!(
        full.configure_command().join(" "),
        "focus-winhelper --title T --time 5 --delay-apply-ms 50 --tween-ms 120 --apply-grid 2 2 1 \
         0 --grid 3 1 2 0 --size 640 480.5 --pos -10 0 --label-text L --min-size 1 2 --step-size 9 \
         18 --start-minimized --start-zoomed --panel-nonmovable --non-resizable --attach-sheet"
    );
    let helper = helper_with_options("T".to_string(), 7, "L".to_string(), false, true);
    assert_eq!(
        helper.configure_command().join(" "),
        "focus-winhelper --title T --time 7 --label-text L --start-zoomed"
    );
    assert!(judge_visible("T", true, 9).is_ok());
    assert_eq!(
        judge_visible("T", false, 9).unwrap_err().describe(),
        "not observed within 9 ms: helper window 'T' not visible"
    );
}

#[test]
fn windows_are_brought_to_the_front() {
    let windows = vec![info(1, 10, "A"), info(2, 11, "T"), info(2, 12, "T")];
    assert_eq!(front_request(&windows, 2, "T"), FrontRequest::Raise(11));
    assert_eq!(front_request(&windows, 3, "T"), FrontRequest::ActivateProcess);
    let (mut run, step) = EnsureFrontmost::ensure_frontmost(2, 40);
    assert_eq!(step, FrontStep::ListAndRequest);
    assert_eq!(run.next(FrontEvent::Requested), FrontStep::PauseAndWait(40));
    assert_eq!(run.next(FrontEvent::Waited(false)), FrontStep::ListAndRequest);
    assert_eq!(run.next(FrontEvent::Waited(false)), FrontStep::Over);
    let (mut run, _) = EnsureFrontmost::ensure_frontmost(2, 40);
    assert_eq!(run.next(FrontEvent::Waited(true)), FrontStep::Over);
    assert_eq!(EnsureFrontmost::ensure_frontmost(0, 40).1, FrontStep::Over);
}

#[test]
fn quotes_are_escaped_for_the_shell() {
    assert_eq!(sh_single_quote("a b"), "'a b'");
    assert_eq!(sh_single_quote("it's"), "'it'\\''s'");
    assert_eq!(sh_single_quote(""), "''");
    assert_eq!(shell_command("/tmp/x"), "printf . >> '/tmp/x'");
    assert_eq!(
        volume_command(),
        "osascript -e 'set currentVolume to output volume of (get volume settings)' -e 'set volume \
         output volume (currentVolume + 1)'"
    );
    assert_eq!(set_volume_script(250), "set volume output volume 100");
    assert_eq!(set_volume_script(7), "set volume output volume 7");
}

#[test]
fn volumes_are_read_and_put_back() {
    assert_eq!(parse_volume(" 42\n"), Some(42));
    assert_eq!(parse_volume("+7"), Some(7));
    assert_eq!(parse_volume("007"), Some(7));
    for bad in ["", " ", "+", "-1", "4 2", "x", "missing value", "18446744073709551616"] {
        assert_eq!(parse_volume(bad), bad.trim().parse::<u64>().ok());
    }
    assert_eq!(parse_volume("18446744073709551615"), Some(u64::MAX));
    assert_eq!(original_volume(None), 50);
    assert_eq!(original_volume(Some(3)), 3);
    assert_eq!(repeats_in_volume(Some(9)), 8);
    assert_eq!(repeats_in_volume(None), 0);
    assert_eq!(repeats_in_log(Some(0)), 0);
    assert_eq!(repeats_in_log(Some(5)), 4);
    assert_eq!(restore_level(300), 300u64 as u8);
    assert!(judge_restore(5, Ok(()), Some(5)).is_ok());
    assert_eq!(
        judge_restore(5, Ok(()), Some(6)).unwrap_err().describe(),
        "invalid test state: expected volume 5 after restore, observed 6"
    );
    assert_eq!(
        judge_restore(5, Ok(()), None).unwrap_err().describe(),
        "invalid test state: failed to read volume after restoration"
    );
    assert_eq!(
        judge_restore(5, Err("w".to_string()), Some(5)).unwrap_err().describe(),
        "invalid test state: failed to restore volume: w"
    );
    assert_eq!(
        osascript_failure("1", "e").describe(),
        "invalid test state: osascript exited with status 1: e"
    );
}

#[test]
fn repeats_are_counted_and_reported() {
    assert_eq!(workload_of("repeat-shell").unwrap(), RepeatWorkload::Shell);
    assert_eq!(
        workload_of("repeat").unwrap_err().describe(),
        "invalid test state: unknown repeat slug: repeat"
    );
    assert_eq!(RepeatWorkload::Volume.duration_ms(5, 9), 9);
    assert_eq!(RepeatWorkload::Relay.duration_ms(5, 9), 5);
    assert_eq!(RepeatWorkload::Relay.app_id(), "smoketest-relay");
    assert_eq!(RepeatWorkload::Volume.slug(), "repeat-volume");
    let out = repeat_output(3);
    assert_eq!((out.stdout.as_str(), out.stderr.as_str()), ("3 repeats\n", ""));
    assert_eq!(repeat_stats("s", 5, 3), "slug=s duration_ms=5 repeats=3");
    assert!(shutdown_repeater("x", false).is_ok());
    assert_eq!(
        shutdown_repeater("x", true).unwrap_err().describe(),
        "invalid test state: repeat 'x' still ticking after shutdown"
    );
    let mut clock = RelayClock { started_at: None, duration_ms: 10 };
    let tick = clock.about_to_wait(5 * MS);
    assert!(tick.start && !tick.stop);
    assert_eq!(tick.wake_at, 15 * MS as u128);
    let tick = clock.about_to_wait(15 * MS);
    assert!(!tick.start && tick.stop);
}

fn status() -> WorldStatus {
    WorldStatus {
        windows_count: 3,
        focused: Some((4, 5)),
        last_tick_ms: 2,
        current_poll_ms: 10,
        accessibility: PermissionState::Granted,
        screen_recording: PermissionState::Granted,
        debounce_cache: 1,
        debounce_pending: 0,
        reconcile_seq: 8,
        suspects_pending: 0,
    }
}

#[test]
fn the_world_status_has_to_be_healthy() {
    assert!(world_status_permissions(&status()).is_ok());
    let text = |s: WorldStatus| world_status_permissions(&s).unwrap_err().describe();
    assert_eq!(
        text(WorldStatus { windows_count: 0, ..status() }),
        "invalid test state: world-status: expected at least one window in snapshot"
    );
    assert_eq!(
        text(WorldStatus { screen_recording: PermissionState::Denied, ..status() }),
        "invalid test state: world-status: capabilities not granted (accessibility=Granted \
         screen_recording=Denied)"
    );
    assert_eq!(
        text(WorldStatus { current_poll_ms: 9, ..status() }),
        "invalid test state: world-status: current poll outside bounds (9 ms)"
    );
    assert!(world_status_permissions(&WorldStatus { current_poll_ms: 5_000, ..status() }).is_ok());
    assert!(world_status_permissions(&WorldStatus { current_poll_ms: 5_001, ..status() }).is_err());
    assert_eq!(
        status_log(&status()),
        "windows_count=3 focused=pid=4 id=5 last_tick_ms=2 current_poll_ms=10 \
         accessibility=Granted screen_recording=Granted debounce_cache=1 debounce_pending=0 \
         reconcile_seq=8 suspects_pending=0"
    );
    assert!(status_log(&WorldStatus { focused: None, ..status() }).contains(" focused=- "));
}

fn props(role: Option<&str>) -> AxProps {
    AxProps {
        role: role.map(str::to_string),
        subrole: Some("AXStandardWindow".to_string()),
        can_set_pos: Some(true),
        can_set_size: Some(false),
    }
}

#[test]
fn window_properties_have_to_be_complete() {
    assert!(judge_props(&props(Some("AXWindow"))).is_ok());
    assert!(judge_props(&props(Some(" \t"))).is_err());
    assert_eq!(
        judge_props(&props(None)).unwrap_err().describe(),
        "invalid test state: world-ax: invalid props role=None subrole=Some(\"AXStandardWindow\") \
         can_set_pos=Some(true) can_set_size=Some(false)"
    );
    assert!(describe_props(&props(Some("r"))).starts_with("role=Some(\"r\")"));
    assert!(describe_props(&props(Some("a\"\n"))).starts_with("role=Some(\"a\\\"\\n\")"));
    let wait = PropsWait::world_ax_focus_props((4, 5), 0);
    let window = |id, ax| Some(FocusedWindow { pid: 4, id, ax });
    assert!(matches!(wait.look(window(6, Some(props(None))), 0), PropsStep::Pause(25)));
    assert!(matches!(wait.look(window(5, None), 0), PropsStep::Pause(25)));
    assert!(matches!(wait.look(window(5, Some(props(None))), 0), PropsStep::Known(_)));
    match wait.look(None, 2_000 * MS) {
        PropsStep::Failed(e) => assert_eq!(
            e.describe(),
            "invalid test state: world-ax: focused window props not observed"
        ),
        other => panic!("unexpected {:?}", other),
    }
}

fn spaces(first: bool, second: bool) -> SpacesEvent {
    SpacesEvent::Snapshot(vec![
        SpaceWindow { pid: 100, on_active_space: first, space: Some(1) },
        SpaceWindow { pid: 200, on_active_space: second, space: Some(2) },
    ])
}

#[test]
fn a_change_of_space_is_adopted_within_its_budget() {
    let (mut run, action) = SpacesRun::run_world_spaces_simulation(5_000, 0);
    assert!(matches!(action, SpacesAction::TakeSnapshot));
    assert!(matches!(
        run.next(spaces(false, false), MS),
        SpacesAction::PauseAndSnapshot(5)
    ));
    assert!(matches!(run.next(spaces(true, false), 6 * MS), SpacesAction::SwitchSpace));
    assert!(matches!(run.next(SpacesEvent::Done, 10 * MS), SpacesAction::TakeSnapshot));
    assert!(matches!(run.next(spaces(false, true), 60 * MS), SpacesAction::TakeSnapshot));
    assert!(matches!(run.next(spaces(false, true), 61 * MS), SpacesAction::AskStatus));
    match run.next(SpacesEvent::Status(3, 120), 62 * MS) {
        SpacesAction::Finish(Ok(m)) => {
            assert_eq!((m.adoption_ms, m.last_tick_ms, m.current_poll_ms), (50, 3, 120))
        }
        other => panic!("unexpected {:?}", other),
    }
}

#[test]
fn a_change_of_space_that_fails_is_reported() {
    let text = |action: SpacesAction| match action {
        SpacesAction::Finish(Err(e)) => e.describe(),
        other => panic!("unexpected {:?}", other),
    };
    let (mut run, _) = SpacesRun::run_world_spaces_simulation(400, 0);
    assert_eq!(
        text(run.next(spaces(false, false), 200 * MS)),
        "invalid test state: initial world snapshot missing expected windows"
    );
    let adopting = || {
        let (mut run, _) = SpacesRun::run_world_spaces_simulation(400, 0);
        run.next(spaces(true, false), 0);
        run.next(SpacesEvent::Done, 0);
        run
    };
    assert_eq!(
        text(adopting().next(spaces(true, false), 400 * MS)),
        "invalid test state: world did not adopt new active space within timeout"
    );
    assert_eq!(
        text(adopting().next(spaces(false, true), 251 * MS)),
        "invalid test state: space adoption exceeded budget: 251ms (budget 250ms)"
    );
    let checking = || {
        let mut run = adopting();
        run.next(spaces(false, true), MS);
        run
    };
    assert_eq!(
        text(checking().next(SpacesEvent::Snapshot(Vec::new()), MS)),
        "invalid test state: missing original space window"
    );
    assert_eq!(
        text(checking().next(spaces(true, true), MS)),
        "invalid test state: original space window remained marked active"
    );
    assert_eq!(
        text(checking().next(spaces(false, false), MS)),
        "invalid test state: new active space window not marked on_active_space"
    );
    let only_first = SpacesEvent::Snapshot(vec![SpaceWindow {
        pid: 100,
        on_active_space: false,
        space: Some(1),
    }]);
    assert_eq!(
        text(checking().next(only_first, MS)),
        "invalid test state: missing adopted space window"
    );
    let measuring = || {
        let mut run = checking();
        run.next(spaces(false, true), MS);
        run
    };
    assert_eq!(
        text(measuring().next(SpacesEvent::Status(251, 0), MS)),
        "invalid test state: world tick exceeded budget: 251ms"
    );
    assert_eq!(
        text(measuring().next(SpacesEvent::Status(0, 251), MS)),
        "invalid test state: world poll interval exceeded budget: 251ms"
    );
}

#[test]
fn the_simulated_desktop_has_two_windows() {
    let w = win(Some(1), 100, 1, true);
    assert_eq!((w.app.as_str(), w.title.as_str()), ("App100", "Win1"));
    assert!(w.is_on_screen && !w.on_active_space);
    let both = simulated_windows(true);
    assert!(!both[0].focused && both[1].focused);
    assert_eq!((both[0].title.as_str(), both[1].title.as_str()), ("Win1", "Win2"));
    assert!(both.iter().all(|w| w.is_on_screen && w.layer == 0 && w.pos.is_none()));
    assert_eq!(world_cfg_fast().poll_ms_max, 120);
}

#[test]
fn budgets_count_down() {
    let budget = RunBudget::new(10, 5 * MS);
    assert_eq!(budget.total_ms(), 10);
    assert_eq!(budget.elapsed(9 * MS), 4 * MS);
    assert_eq!(budget.remaining_ms(5 * MS), Some(10));
    assert_eq!(budget.remaining_ms(15 * MS - 1), Some(1));
    assert_eq!(budget.remaining_ms(13 * MS + 1), Some(2));
    assert_eq!(budget.remaining(15 * MS - 1), Some(1));
    assert_eq!(budget.remaining(15 * MS), None);
    assert_eq!(budget.remaining_ms(15 * MS), None);
    assert_eq!(budget.remaining(15 * MS + 1), None);
    assert!(!budget.is_expired(15 * MS - 1));
    assert!(budget.is_expired(15 * MS));
    assert_eq!(ms(2), 2 * MS as u128);
    assert_eq!(remaining_ms(10 * MS as u128, 9 * MS + 1), None);
    assert_eq!(remaining_ms(10 * MS as u128, 8 * MS), Some(2));
    assert_eq!(InputDelays::default().poll_interval_ms, 5);
    assert_eq!(InputDelays::default().retry_delay_ms, 30);
    assert_eq!(Retry::default().fast_delay_ms, 50);
    assert_eq!(WarnOverlayConfig::default().width_px, 520);
}

#[test]
fn outcomes_are_shown_in_one_line() {
    let ui = TestDetails::Ui { hud_seen: true, time_to_hud_ms: Some(5) };
    assert_eq!(
        TestOutcome::success(ui).with_elapsed_ms(7).format_status("hud"),
        "hud: OK (hud_seen=true, time_to_hud_ms=Some(5), elapsed=7ms)"
    );
    let failed = TestOutcome::failure(TestDetails::Generic, "why".to_string())
        .with_elapsed(3 * MS + 999_999);
    assert_eq!(failed.format_status("x"), "x: FAIL (why, elapsed=3ms)");
    assert_eq!(TestOutcome::default().format_status("x"), "x: FAIL (elapsed=0ms)");
    let focus = TestDetails::Focus { title: "T".to_string(), pid: -4 };
    assert_eq!(
        TestOutcome::success(focus).with_message("m".to_string()).format_status("f"),
        "f: OK (title='T', pid=-4, elapsed=0ms)"
    );
    let repeat = TestDetails::Repeat { count: 9, test_type: RepeatType::Relay };
    assert_eq!(
        TestOutcome::success(repeat).format_status("r"),
        "r: OK (9 relay repeats, elapsed=0ms)"
    );
    let window = TestDetails::Window { operation: WindowOperation::Raise };
    assert_eq!(
        TestOutcome::success(window).format_status("w"),
        "w: OK (raise operation completed, elapsed=0ms)"
    );
}
