//! Cases that drive a session, step by step.

use hotki::geom::Rect;
use hotki::smoketest::activation::{
    activation_ident, hud_visible, should_retry, ActivationAction, ActivationEvent,
    ActivationOutcome, ActivationStep, BindingWatcher, StreamEvent,
};
use hotki::smoketest::error::{DriverError, Error};
use hotki::smoketest::focus_test::{
    listen_for_focus, FocusNews, FocusStep, FocusTest, FocusTestAction, FocusTestEvent,
};
use hotki::smoketest::fullscreen::{
    area_delta, build_fullscreen_config, fullscreen_helper_args, FullscreenAction, FullscreenEvent,
    FullscreenRun, FullscreenStage, FullscreenTuning,
};
use hotki::smoketest::hide_test::{
    helper_ready, helper_time, hide_config, moved_back, moved_off, target_x, HideTest,
    HideTestAction, HideTestEvent, HideTestStage, HideTuning, Stroke,
};
use hotki::smoketest::raise_test::{
    all_present, raise_config, AwaitedWindow, RaiseAction, RaiseEvent, RaiseStage, RaiseTest,
    RaiseWindows,
};
use hotki::smoketest::timed_look::{HudNews, ListenStep, LookStep, TimedLook};
use hotki::smoketest::ui_case::{
    config_activation, config_with_binding, demo_config, demo_menu_idents, demo_style, displays,
    hud, mini, notification_config, notifications, reconnect, DemoHudMode, MessageRule,
    NoticeStep, NoticeWait, SessionAction, SessionEvent, SessionLog, SessionPlan, SessionRun,
    SessionStep, UiMessage,
};
use hotki::smoketest::windows::{DisplayFrame, HudDisplay, WindowSnapshot};
use hotki::window::WindowInfo;

const MS: u64 = 1_000_000;
const PT: i64 = 1024;

fn rect(x: i64, y: i64, w: i64, h: i64) -> Rect {
    Rect { x: x * PT, y: y * PT, w: w * PT, h: h * PT }
}

fn snapshot(y: i64) -> WindowSnapshot {
    WindowSnapshot {
        pid: 1,
        id: 2,
        title: "Hotki Notification".to_string(),
        layer: 3,
        is_on_screen: true,
        bounds: rect(3200 - 420 - 12, y, 420, 78),
        display_id: Some(4),
    }
}

fn info(pid: i32, title: &str) -> WindowInfo {
    WindowInfo {
        app: "App".to_string(),
        title: title.to_string(),
        pid,
        id: 9,
        pos: None,
        space: None,
        layer: 0,
        focused: false,
        is_on_screen: true,
        on_active_space: true,
    }
}

const OUTCOME: ActivationOutcome = ActivationOutcome {
    hud_update_ms: None,
    frontmost_ms: Some(12),
    activation_attempts: 1,
    hud_updates_seen: 0,
    focus_event_seen: true,
};

fn answer(step: SessionStep) -> SessionEvent {
    match step {
        SessionStep::Activate(_) => SessionEvent::Activated(OUTCOME),
        SessionStep::ListWindows | SessionStep::AwaitNotification => {
            SessionEvent::Windows(vec![snapshot(36), snapshot(30)])
        }
        SessionStep::CheckDisplays => SessionEvent::Displays {
            count: 2,
            focused: Some(4),
            hud: HudDisplay::Named(4),
        },
        SessionStep::CheckNotification => SessionEvent::Frames(vec![DisplayFrame {
            id: 4,
            frame: rect(0, 0, 3200, 1800),
            visible_y: 24 * PT,
            visible_height: 1776 * PT,
        }]),
        _ => SessionEvent::Done,
    }
}

fn walk(plan: SessionPlan) -> (Vec<SessionStep>, Option<String>, Result<(), Error>) {
    let (mut run, mut action) = SessionRun::start(plan);
    let mut steps = Vec::new();
    let mut log = None;
    loop {
        action = match action {
            SessionAction::Perform(step) => {
                steps.push(step);
                run.next(answer(step))
            }
            SessionAction::Settle(text) => {
                log = text;
                run.next(SessionEvent::Done)
            }
            SessionAction::Finish(result) => return (steps, log, result),
        };
    }
}

#[test]
fn hud_cases_press_every_key_of_the_demo() {
    let (steps, log, result) = walk(hud());
    assert!(result.is_ok());
    assert_eq!(steps.len(), 17);
    assert_eq!(steps[0], SessionStep::EnsureReady);
    assert_eq!(steps[4], SessionStep::MarkAndPress("n"));
    assert_eq!(steps[16], SessionStep::Press("esc"));
    let log = log.unwrap();
    assert!(log.starts_with("slug=hud hud_seen=true time_to_hud_ms=Some(12) hud_windows=title="));
    assert!(log.ends_with("observed_via_event=false focus_event_seen=true"));
    assert_eq!(demo_menu_idents(), vec!["n", "d", "s"]);

    let (steps, _, result) = walk(displays());
    assert!(result.is_ok());
    assert_eq!(steps[16], SessionStep::CheckDisplays);
    let (steps, _, _) = walk(mini());
    assert_eq!(steps.len(), 17);
}

#[test]
fn the_first_failed_step_ends_a_case() {
    let (mut run, _) = SessionRun::start(reconnect());
    assert!(matches!(
        run.next(SessionEvent::Done),
        SessionAction::Perform(SessionStep::ShutdownServer)
    ));
    let action = run.next(SessionEvent::Failed(Error::HotkiBinNotFound));
    assert!(matches!(action, SessionAction::Finish(Err(Error::HotkiBinNotFound))));
    assert!(matches!(run.next(SessionEvent::Done), SessionAction::Finish(Err(_))));
}

#[test]
fn answers_of_the_wrong_kind_repeat_the_step() {
    let (mut run, _) = SessionRun::start(reconnect());
    assert!(matches!(
        run.next(SessionEvent::Windows(Vec::new())),
        SessionAction::Perform(SessionStep::AwaitIdent("shift+cmd+c"))
    ));
    assert_eq!(run.at, 0);
}

#[test]
fn the_notification_case_checks_the_lowest_window() {
    let (steps, log, result) = walk(notifications());
    assert!(result.is_ok());
    assert_eq!(steps.len(), 6);
    let log = log.unwrap();
    assert!(log.find("36, 420").unwrap() < log.find("30, 420").unwrap());

    let (mut run, mut action) = SessionRun::start(notifications());
    loop {
        let SessionAction::Perform(step) = action else { panic!("no more steps") };
        let event = match step {
            SessionStep::AwaitNotification => SessionEvent::Windows(Vec::new()),
            other => answer(other),
        };
        action = run.next(event);
        if let SessionAction::Finish(result) = action {
            assert_eq!(
                result.unwrap_err().describe(),
                "invalid test state: no notification window candidates were visible"
            );
            break;
        }
    }
}

#[test]
fn recovery_cases_have_their_scripts() {
    let plan = config_activation();
    assert_eq!(plan.config, "return function(");
    assert_eq!(plan.config_name, "invalid_initial_config.luau");
    assert_eq!(plan.log, SessionLog::Nothing);
    let (steps, log, result) = walk(plan);
    assert_eq!(
        steps,
        vec![
            SessionStep::AwaitNotification,
            SessionStep::RewriteConfig("shift+cmd+r"),
            SessionStep::ActivateConfig,
            SessionStep::AwaitIdent("shift+cmd+r"),
        ]
    );
    assert!(log.is_none() && result.is_ok());
    assert_eq!(reconnect().config, config_with_binding("shift+cmd+c"));
    assert_eq!(
        config_with_binding("k"),
        "\nreturn function(menu, ctx)\n  menu:bind(\"k\", \"Runtime smoke\", function(actx)\n    \
         actx:notify(\"info\", \"Runtime smoke\", \"ready\")\n  end)\nend\n"
    );
}

#[test]
fn configs_hold_the_expected_bindings() {
    assert!(demo_config().contains("menu:submenu(\"shift+cmd+0\", \"activate\""));
    assert!(demo_config().contains("title = \"Pick Demo\","));
    assert!(demo_style(DemoHudMode::Mini).contains("mode = \"mini\","));
    assert!(demo_style(DemoHudMode::Hud).contains("mode = \"hud\","));
    assert!(notification_config().contains("menu:bind(\"shift+cmd+n\", \"Native Notification\""));
    assert!(build_fullscreen_config("T").contains("raise(title: \"T\"), (noexit: true)"));
    assert!(hide_config().contains("(\"o\", \"on\", hide(on)),"));
    let cfg = raise_config("one", "two");
    assert!(cfg.contains("(\"1\", \"one\", raise(title: \"one\")),"));
    assert!(cfg.contains("(\"2\", \"two\", raise(title: \"two\")),"));
}

#[test]
fn messages_are_recognized() {
    let notify = |title: &str, text: &str| UiMessage::Notify {
        title: title.to_string(),
        text: text.to_string(),
    };
    let selector = UiMessage::SelectorUpdate {
        heading: "Pick Demo".to_string(),
        query: "a".to_string(),
    };
    assert!(MessageRule::NotifyTitled("Shell command").is_met_by(&notify("Shell command", "")));
    assert!(!MessageRule::NotifyTitled("Shell command").is_met_by(&notify("Shell", "")));
    assert!(MessageRule::NotifySaying("Selector", "Alpha:a")
        .is_met_by(&notify("Selector", "Alpha:a")));
    assert!(!MessageRule::NotifySaying("Selector", "Alpha:a").is_met_by(&notify("Selector", "")));
    assert!(MessageRule::DetailsOn.is_met_by(&UiMessage::ShowDetails(true)));
    assert!(!MessageRule::DetailsOn.is_met_by(&UiMessage::ShowDetails(false)));
    assert!(MessageRule::SelectorTitled("Pick Demo").is_met_by(&selector));
    assert!(MessageRule::SelectorQuery("a").is_met_by(&selector));
    assert!(!MessageRule::SelectorQuery("b").is_met_by(&selector));
    assert!(!MessageRule::SelectorHidden.is_met_by(&selector));
    let stream = vec![UiMessage::SelectorHide, UiMessage::Unrelated];
    assert!(MessageRule::SelectorHidden.is_met_since(&stream, 0));
    assert!(!MessageRule::SelectorHidden.is_met_since(&stream, 1));
    assert!(!MessageRule::SelectorHidden.is_met_since(&stream, 5));
}

#[test]
fn notifications_are_awaited_for_some_time() {
    let wait = NoticeWait { start: 0, timeout_ms: 100 };
    assert!(matches!(wait.look(true, 0, 0), NoticeStep::Done));
    assert!(matches!(wait.look(false, 0, 0), NoticeStep::Pause(30_000_000)));
    assert!(matches!(wait.look(false, 90 * MS, 90 * MS), NoticeStep::Pause(10_000_000)));
    assert!(matches!(wait.look(false, 99 * MS, 101 * MS), NoticeStep::Pause(0)));
    assert!(matches!(wait.look(false, 100 * MS, 100 * MS), NoticeStep::ListAll));
    assert_eq!(
        NoticeWait::failure(&Vec::new()).describe(),
        "invalid test state: no notification window candidates; hotki windows: <none>"
    );
}

#[test]
fn activation_waits_for_the_hud_and_its_bindings() {
    assert_eq!(activation_ident(), "shift+cmd+0");
    let watcher = BindingWatcher::connect("/tmp/s", 7).unwrap();
    assert_eq!(watcher, BindingWatcher::new(7));
    let (mut run, step) = watcher.activate_until_ready(1_000, true, 0);
    let acts = |s: &ActivationStep, a: ActivationAction| {
        matches!(s, ActivationStep::Perform(p) if *p == a)
    };
    assert!(acts(&step, ActivationAction::AwaitActivation(1_000)));
    let step = run.next(ActivationEvent::Done, 100 * MS);
    assert!(acts(&step, ActivationAction::InjectActivation(900)));
    let step = run.next(ActivationEvent::Done, 110 * MS);
    assert!(acts(&step, ActivationAction::DrainEvents));
    let events = vec![
        StreamEvent::Hud { id: 5, visible: true },
        StreamEvent::Hud { id: 5, visible: true },
        StreamEvent::FocusChanged,
        StreamEvent::Other,
    ];
    let step = run.next(ActivationEvent::Drained(events), 120 * MS);
    assert!(acts(&step, ActivationAction::CheckVisible));
    let step = run.next(ActivationEvent::Visible(true), 130 * MS);
    assert!(acts(&step, ActivationAction::AwaitNested(870)));
    let step = run.next(ActivationEvent::Done, 140 * MS);
    let ActivationStep::Finish(Ok(outcome)) = step else { panic!("unexpected {:?}", step) };
    assert_eq!(outcome.hud_visible_ms(), Some(120));
    assert_eq!(outcome.frontmost_ms, Some(130));
    assert_eq!(outcome.hud_updates_seen, 1);
    assert!(outcome.focus_event_seen() && outcome.observed_via_event());
    assert_eq!(
        outcome.summary_string(),
        "hud_update_ms=Some(120) frontmost_ms=Some(130) activation_attempts=1 hud_updates_seen=1 \
         observed_via_event=true focus_event_seen=true"
    );
}

#[test]
fn the_hud_is_visible_from_the_earlier_of_report_and_sight() {
    let outcome = |hud_update_ms, frontmost_ms| ActivationOutcome {
        hud_update_ms,
        frontmost_ms,
        activation_attempts: 1,
        hud_updates_seen: 1,
        focus_event_seen: false,
    };
    assert_eq!(outcome(Some(9), Some(4)).hud_visible_ms(), Some(4));
    assert_eq!(outcome(Some(4), Some(9)).hud_visible_ms(), Some(4));
    assert_eq!(outcome(Some(9), None).hud_visible_ms(), Some(9));
    assert_eq!(outcome(None, Some(4)).hud_visible_ms(), Some(4));
    assert_eq!(outcome(None, None).hud_visible_ms(), None);
}

#[test]
fn activation_gives_up_when_its_time_is_up() {
    let (_, step) = BindingWatcher::new(7).activate_until_ready(0, false, 0);
    assert!(matches!(
        step,
        ActivationStep::Finish(Err(Error::HudNotVisible { timeout_ms: 0 }))
    ));
    let (mut run, _) = BindingWatcher::new(7).activate_until_ready(50, false, 0);
    let step = run.next(ActivationEvent::Failed(DriverError::NotInitialized), 0);
    assert!(matches!(
        step,
        ActivationStep::Finish(Err(Error::RpcDriver(DriverError::NotInitialized)))
    ));
    assert!(hud_visible(Some(true), 1));
    assert!(!hud_visible(Some(true), 0));
    assert!(!hud_visible(Some(false), 1));
    assert!(!hud_visible(None, 1));
    assert!(should_retry(None, 0));
    assert!(!should_retry(Some(0), 29 * MS));
    assert!(should_retry(Some(0), 30 * MS));
}

const FULL: FullscreenTuning = FullscreenTuning {
    helper_lifetime_ms: 20_000,
    helper_extra_ms: 3_000,
    first_window_max_ms: 400,
    helper_show_delay_ms: 25,
    ui_action_delay_ms: 40,
    wait_total_ms: 900,
    wait_poll_ms: 15,
};

#[test]
fn the_fullscreen_case_measures_before_and_after() {
    assert_eq!(
        fullscreen_helper_args("T", FULL),
        vec!["focus-winhelper", "--title", "T", "--time", "23000", "--label-text", "FS"]
    );
    let (mut run, action) =
        FullscreenRun::fullscreen_toggle_nonnative("T".to_string(), FULL);
    assert!(matches!(action, FullscreenAction::EnsureInit(5_000)));
    let done = || FullscreenEvent::Done;
    assert!(matches!(run.next(done(), 0), FullscreenAction::AwaitBindings(4_000)));
    assert!(matches!(run.next(done(), 0), FullscreenAction::SpawnHelper));
    assert!(matches!(run.next(done(), 0), FullscreenAction::AwaitWindow(5_000, 25)));
    assert!(matches!(
        run.next(FullscreenEvent::Answer(true), 0),
        FullscreenAction::EnsureFrontmost(3, 40)
    ));
    assert!(matches!(
        run.next(FullscreenEvent::Failed(Error::invalid("x")), 0),
        FullscreenAction::RaiseByTitle(3, 40)
    ));
    assert!(matches!(
        run.next(FullscreenEvent::Answer(false), 0),
        FullscreenAction::AcquireGuard
    ));
    assert!(matches!(run.next(done(), 0), FullscreenAction::Press("g")));
    assert!(matches!(run.next(done(), 0), FullscreenAction::Reassert));
    assert!(matches!(run.next(done(), 0), FullscreenAction::ReadFrame));
    let small = rect(0, 0, 10, 10);
    let large = rect(0, 0, 20, 30);
    assert!(matches!(
        run.next(FullscreenEvent::Frame(Some(small)), 0),
        FullscreenAction::Press("shift+cmd+9")
    ));
    assert!(matches!(run.next(done(), 100 * MS), FullscreenAction::ReadFrame));
    assert!(matches!(
        run.next(FullscreenEvent::Frame(None), 200 * MS),
        FullscreenAction::CheckAlive
    ));
    assert!(matches!(
        run.next(FullscreenEvent::Answer(true), 200 * MS),
        FullscreenAction::Pause(15)
    ));
    assert!(matches!(run.next(done(), 220 * MS), FullscreenAction::ReadFrame));
    assert!(matches!(
        run.next(FullscreenEvent::Frame(Some(large)), 300 * MS),
        FullscreenAction::Reassert
    ));
    assert!(matches!(run.next(done(), 0), FullscreenAction::KillHelper));
    let FullscreenAction::Settle(before, after) = run.next(done(), 0) else {
        panic!("the case settles")
    };
    assert_eq!((before, after), (small, large));
    assert_eq!(area_delta(before, after), 500 * 1024 * 1024);
    assert!(matches!(run.next(done(), 0), FullscreenAction::Finish(Ok(()))));
}

#[test]
fn the_fullscreen_case_reports_what_went_wrong() {
    let at = |stage| FullscreenRun {
        title: "T".to_string(),
        tuning: FULL,
        deadline: 10,
        before: None,
        after: None,
        stage,
    };
    let text = |action: FullscreenAction| match action {
        FullscreenAction::Finish(Err(e)) => e.describe(),
        other => panic!("unexpected {:?}", other),
    };
    assert_eq!(
        text(at(FullscreenStage::Appearing).next(FullscreenEvent::Answer(false), 0)),
        "not observed within 5000 ms: helper window 'T' not visible"
    );
    assert_eq!(
        text(at(FullscreenStage::Measuring).next(FullscreenEvent::Frame(None), 0)),
        "invalid test state: failed to read initial window frame"
    );
    assert_eq!(
        text(at(FullscreenStage::Watching).next(FullscreenEvent::Frame(None), 10)),
        "invalid test state: failed to read window frame after fullscreen toggle"
    );
    assert_eq!(
        text(at(FullscreenStage::Probing).next(FullscreenEvent::Answer(false), 0)),
        "connection lost during fullscreen toggle"
    );
    assert_eq!(
        text(at(FullscreenStage::Ending).next(FullscreenEvent::Done, 0)),
        "invalid test state: missing before frame"
    );
    let mut half = at(FullscreenStage::Ending);
    half.before = Some(rect(0, 0, 1, 1));
    assert_eq!(
        text(half.next(FullscreenEvent::Done, 0)),
        "invalid test state: missing after frame"
    );
}

const HIDE: HideTuning = HideTuning {
    helper_extra_ms: 5_000,
    key_event_delay_ms: 60,
    ui_action_delay_ms: 80,
    ui_stabilize_delay_ms: 250,
    restore_poll_ms: 130,
    hide_min_timeout_ms: 500,
    hide_secondary_min_timeout_ms: 700,
    position_offset_pts: 100,
};

#[test]
fn the_hide_test_moves_a_window_off_and_back() {
    let (mut run, action) = HideTest::run_hide_test("T".to_string(), 4_000, HIDE, 0);
    assert!(matches!(action, HideTestAction::LookForWindow));
    assert!(matches!(
        run.next(HideTestEvent::Answer(false), 0),
        HideTestAction::Pause(60)
    ));
    assert!(matches!(run.next(HideTestEvent::Rested, 60 * MS), HideTestAction::LookForWindow));
    assert!(matches!(
        run.next(HideTestEvent::Answer(true), 61 * MS),
        HideTestAction::StartSession(4_000)
    ));
    assert!(matches!(
        run.next(HideTestEvent::Answer(true), 0),
        HideTestAction::MeasureWindow
    ));
    let start = rect(100, 100, 300, 200);
    assert!(matches!(
        run.next(HideTestEvent::Frame(Some(start)), 0),
        HideTestAction::MeasureScreen
    ));
    let HideTestAction::Type(strokes) =
        run.next(HideTestEvent::Screen(Some(rect(0, 0, 1920, 1080))), 0)
    else {
        panic!("hiding is typed")
    };
    assert_eq!(strokes, vec![Stroke::Key("h"), Stroke::Pause(80), Stroke::Key("o")]);
    assert_eq!(run.target, 1919 * 1024);
    assert!(matches!(run.next(HideTestEvent::Done, 0), HideTestAction::ReadPosition));
    assert_eq!(run.deadline, 1_000 * MS as u128);
    assert!(matches!(
        run.next(HideTestEvent::Position(Some(start.x)), MS),
        HideTestAction::Pause(60)
    ));
    assert!(matches!(
        run.next(HideTestEvent::Rested, MS),
        HideTestAction::ReadPosition
    ));
    assert!(matches!(
        run.next(HideTestEvent::Position(None), MS),
        HideTestAction::Pause(60)
    ));
    let HideTestAction::Type(strokes) =
        run.next(HideTestEvent::Position(Some(1919 * 1024)), 2 * MS)
    else {
        panic!("showing is typed")
    };
    assert_eq!(strokes.len(), 6);
    assert_eq!(strokes[5], Stroke::Key("f"));
    assert!(matches!(run.next(HideTestEvent::Done, 0), HideTestAction::ReadFrame));
    assert!(matches!(
        run.next(HideTestEvent::Frame(Some(rect(107, 100, 300, 200))), 0),
        HideTestAction::EndSession
    ));
    assert!(matches!(run.next(HideTestEvent::Done, 0), HideTestAction::Finish(Ok(()))));
}

#[test]
fn the_hide_test_reports_what_went_wrong() {
    let at = |stage| HideTest {
        title: "T".to_string(),
        timeout_ms: 4_000,
        tuning: HIDE,
        deadline: 10,
        start: rect(0, 0, 10, 10),
        target: 0,
        stage,
    };
    let text = |action: HideTestAction| match action {
        HideTestAction::Finish(Err(e)) => e.describe(),
        other => panic!("unexpected {:?}", other),
    };
    assert_eq!(
        text(at(HideTestStage::Appearing).next(HideTestEvent::Rested, 10)),
        "not observed within 4000 ms: helper window 'T' not visible"
    );
    assert_eq!(
        text(at(HideTestStage::Activating).next(HideTestEvent::Answer(false), 0)),
        "HUD did not appear within 4000 ms (no HudUpdate depth>0)"
    );
    assert_eq!(
        text(at(HideTestStage::Measuring).next(HideTestEvent::NoWindow, 0)),
        "not observed within 4000 ms: AX window for helper"
    );
    assert_eq!(
        text(at(HideTestStage::Measuring).next(HideTestEvent::Frame(None), 0)),
        "not observed within 4000 ms: AX frame for helper window"
    );
    let mut run = at(HideTestStage::Moving);
    assert!(matches!(run.next(HideTestEvent::Rested, 10), HideTestAction::EndSession));
    assert_eq!(
        text(run.next(HideTestEvent::Done, 0)),
        "failed to launch hotki: window position did not change after hide(on)"
    );
    let mut run = at(HideTestStage::Returning);
    assert!(matches!(run.next(HideTestEvent::Rested, 10), HideTestAction::EndSession));
    assert_eq!(
        text(run.next(HideTestEvent::Done, 0)),
        "failed to launch hotki: window did not restore to original frame after hide(off)"
    );
    let (_, action) = HideTest::run_hide_test("T".to_string(), 0, HIDE, 0);
    assert!(matches!(action, HideTestAction::Finish(Err(Error::FocusNotObserved { .. }))));
    assert_eq!(helper_time(u64::MAX, 1), u64::MAX);
    assert_eq!(helper_time(4, 3), 7);
}

#[test]
fn movements_have_their_tolerances() {
    let start = rect(100, 100, 300, 200);
    assert!(!moved_off(102 * PT, start, 5_000 * 1024));
    assert!(moved_off(102 * PT + 1, start, 5_000 * 1024));
    assert!(moved_off(100 * PT, start, 106 * 1024));
    assert!(moved_back(rect(108, 92, 292, 208), start));
    assert!(!moved_back(rect(109, 100, 300, 200), start));
    assert!(!moved_back(rect(100, 100, 300, 209), start));
    assert_eq!(target_x(start, None, 100), 200 * 1024);
    let windows = vec![info(5, "T")];
    assert!(helper_ready(&windows, 5, "T", false));
    assert!(!helper_ready(&windows, 6, "T", false));
    assert!(helper_ready(&windows, 6, "T", true));
}

#[test]
fn the_raise_test_raises_both_windows() {
    let (mut run, action) =
        RaiseTest::run_raise_test("one".to_string(), "two".to_string(), 3_000);
    assert!(matches!(action, RaiseAction::AwaitWindows(RaiseWindows::Both, 8_000)));
    let yes = || RaiseEvent::Answer(true);
    let no = || RaiseEvent::Answer(false);
    let strokes = |action: RaiseAction| match action {
        RaiseAction::Type(s) => s,
        other => panic!("unexpected {:?}", other),
    };
    assert!(matches!(run.next(yes()), RaiseAction::StartSession));
    assert!(matches!(run.next(RaiseEvent::Done), RaiseAction::AwaitHud(3_000)));
    assert_eq!(strokes(run.next(yes())), vec![Stroke::Key("r")]);
    assert!(matches!(
        run.next(RaiseEvent::Done),
        RaiseAction::AwaitWindows(RaiseWindows::First, 6_000)
    ));
    assert_eq!(strokes(run.next(yes())), vec![Stroke::Key("1")]);
    assert!(matches!(run.next(RaiseEvent::Done), RaiseAction::AwaitFront(false, 1_500)));
    assert!(matches!(run.next(no()), RaiseAction::AwaitReport(false, 1_500)));
    assert_eq!(strokes(run.next(no())), vec![Stroke::Pause(300), Stroke::Key("1")]);
    assert!(matches!(run.next(RaiseEvent::Done), RaiseAction::AwaitFront(false, 1_500)));
    assert!(matches!(run.next(no()), RaiseAction::AwaitReport(false, 1_500)));
    assert_eq!(
        strokes(run.next(no())),
        vec![Stroke::Key("shift+cmd+0"), Stroke::Pause(150), Stroke::Key("r")]
    );
    assert!(matches!(
        run.next(RaiseEvent::Done),
        RaiseAction::AwaitWindows(RaiseWindows::First, 1_500)
    ));
    assert_eq!(strokes(run.next(no())), vec![Stroke::Key("1")]);
    assert!(matches!(run.next(RaiseEvent::Done), RaiseAction::AwaitFront(false, 1_500)));
    assert_eq!(
        strokes(run.next(yes())),
        vec![Stroke::Pause(250), Stroke::Key("shift+cmd+0")]
    );
    run.next(RaiseEvent::Done);
    assert_eq!(
        strokes(run.next(yes())),
        vec![Stroke::Key("r"), Stroke::Pause(120), Stroke::Key("2")]
    );
    assert!(matches!(run.next(RaiseEvent::Done), RaiseAction::AwaitFront(true, 1_500)));
    assert!(matches!(run.next(no()), RaiseAction::AwaitReport(true, 1_500)));
    assert!(matches!(
        run.next(yes()),
        RaiseAction::Cleanup { session: true, remove_config: true }
    ));
    assert!(matches!(run.next(RaiseEvent::Done), RaiseAction::Finish(Ok(()))));
}

#[test]
fn the_raise_test_reports_what_went_wrong() {
    let at = |stage| RaiseTest {
        first: "one".to_string(),
        second: "two".to_string(),
        timeout_ms: 3_000,
        stage,
    };
    let fails = |stage| {
        let mut run = at(stage);
        let cleanup = run.next(RaiseEvent::Answer(false));
        let RaiseAction::Cleanup { session, .. } = cleanup else { panic!("cleanup comes first") };
        match run.next(RaiseEvent::Done) {
            RaiseAction::Finish(Err(e)) => (session, e.describe()),
            other => panic!("unexpected {:?}", other),
        }
    };
    assert_eq!(
        fails(RaiseStage::Appearing),
        (false, "not observed within 8000 ms: helpers not visible in CG/AX".to_string())
    );
    assert_eq!(
        fails(RaiseStage::Activating),
        (true, "HUD did not appear within 3000 ms (no HudUpdate depth>0)".to_string())
    );
    assert_eq!(
        fails(RaiseStage::Finding(false)).1,
        "not observed within 6000 ms: first window not visible before menu: 'one'"
    );
    assert_eq!(
        fails(RaiseStage::Finding(true)).1,
        "not observed within 6000 ms: second window not visible before menu: 'two'"
    );
    assert_eq!(fails(RaiseStage::Reporting(false, 2)).1, "not observed within 3000 ms: one");
    assert_eq!(fails(RaiseStage::Reporting(true, 2)).1, "not observed within 3000 ms: two");
}

#[test]
fn windows_are_present_by_process_or_title() {
    let awaited = |pid, title: &str, reported| AwaitedWindow {
        pid,
        title: title.to_string(),
        reported,
    };
    let windows = vec![info(5, "T")];
    assert!(all_present(&windows, &vec![awaited(5, "other", false), awaited(9, "T", false)]));
    assert!(!all_present(&windows, &vec![awaited(9, "other", false)]));
    assert!(all_present(&windows, &vec![awaited(9, "other", true)]));
    assert!(all_present(&windows, &Vec::new()));
}

#[test]
fn waits_look_and_listen_until_their_deadline() {
    let (wait, step) = TimedLook::start(100, 50, 0);
    assert_eq!(step, LookStep::Look);
    assert_eq!(wait.seen(false), LookStep::Pause(50));
    assert_eq!(wait.seen(true), LookStep::Over(true));
    assert_eq!(wait.rested(99 * MS), LookStep::Look);
    assert_eq!(wait.rested(100 * MS), LookStep::Over(false));
    assert_eq!(TimedLook::start(0, 50, 7).1, LookStep::Over(false));
    let (wait, _) = TimedLook::start(1_000, 50, 0);
    assert_eq!(wait.listen(0), ListenStep::Listen(300 * MS));
    assert_eq!(wait.listen(900 * MS), ListenStep::Listen(100 * MS));
    let focus = |t: &str| HudNews::Focus(Some(t.to_string()));
    assert_eq!(wait.heard(&focus("T"), "T", 0), ListenStep::Over(true));
    assert_eq!(wait.heard(&focus("U"), "T", 0), ListenStep::Listen(300 * MS));
    assert_eq!(wait.heard(&HudNews::Lost, "T", 0), ListenStep::Over(false));
    assert_eq!(wait.heard(&HudNews::Quiet, "T", 1_000 * MS), ListenStep::Over(false));
}

#[test]
fn the_focus_test_takes_the_matching_window() {
    let news = |t: &str| FocusNews::Focus(Some((t.to_string(), 4)));
    assert!(matches!(listen_for_focus(true, news("T"), "T"), FocusStep::Stop));
    assert!(matches!(listen_for_focus(false, news("U"), "T"), FocusStep::Listen));
    assert!(matches!(listen_for_focus(false, FocusNews::Lost, "T"), FocusStep::Stop));
    assert!(matches!(listen_for_focus(false, FocusNews::Quiet, "T"), FocusStep::Listen));
    match listen_for_focus(false, news("T"), "T") {
        FocusStep::Found(title, pid) => assert_eq!((title.as_str(), pid), ("T", 4)),
        other => panic!("unexpected {:?}", other),
    }
}

fn watching() -> FocusTest {
    let (mut run, action) = FocusTest::run_focus_test("T".to_string(), 100, 40, 5);
    assert!(matches!(action, FocusTestAction::Launch));
    assert!(matches!(run.next(FocusTestEvent::Done, 0), FocusTestAction::StartListening));
    assert!(matches!(run.next(FocusTestEvent::Done, 0), FocusTestAction::SpawnHelper(140)));
    assert!(matches!(run.next(FocusTestEvent::Spawned(8), 10 * MS), FocusTestAction::CheckFound));
    run
}

#[test]
fn the_focus_test_looks_until_its_time_is_up() {
    let mut run = watching();
    assert!(matches!(run.next(FocusTestEvent::Found(false), 11 * MS), FocusTestAction::Pause(5)));
    assert!(matches!(run.next(FocusTestEvent::Rested, 109 * MS), FocusTestAction::CheckFound));
    assert!(matches!(run.next(FocusTestEvent::Found(false), 109 * MS), FocusTestAction::Pause(5)));
    assert!(matches!(run.next(FocusTestEvent::Rested, 110 * MS), FocusTestAction::StopListening));
    match run.next(FocusTestEvent::Stopped(false, None), 111 * MS) {
        FocusTestAction::Finish(Err(e)) => {
            assert_eq!(e.describe(), "not observed within 100 ms: T")
        }
        other => panic!("unexpected {:?}", other),
    }
}

#[test]
fn the_focus_test_stops_listening_before_it_judges() {
    let mut run = watching();
    assert!(matches!(run.next(FocusTestEvent::Found(true), 15 * MS), FocusTestAction::StopListening));
    match run.next(FocusTestEvent::Stopped(true, None), 16 * MS) {
        FocusTestAction::Finish(Ok(found)) => {
            assert_eq!((found.title.as_str(), found.pid, found.elapsed_ms), ("T", 8, 6))
        }
        other => panic!("unexpected {:?}", other),
    }
    let mut run = watching();
    run.next(FocusTestEvent::Found(true), 15 * MS);
    match run.next(FocusTestEvent::Stopped(true, Some(("U".to_string(), 9))), 16 * MS) {
        FocusTestAction::Finish(Ok(found)) => {
            assert_eq!((found.title.as_str(), found.pid), ("U", 9))
        }
        other => panic!("unexpected {:?}", other),
    }
    let (mut run, _) = FocusTest::run_focus_test("T".to_string(), 100, 40, 5);
    let failed = run.next(FocusTestEvent::Failed(Error::HotkiBinNotFound), 0);
    assert!(matches!(failed, FocusTestAction::Finish(Err(Error::HotkiBinNotFound))));
}
