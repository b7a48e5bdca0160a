//! Placement, scenario and focus cases, with their plans and runs.

use hotki::place::grid::MoveDir;
use hotki::place::metrics::PlacementCounters;
use hotki::screen::{Screen, ScreenLayout};
use hotki::geom::Rect;
use hotki::smoketest::case_plan::{
    deadline_for, place_animated_tween, place_async_delay, place_flex_default,
    place_flex_force_size_pos, place_flex_smg, place_grid_cycle, place_increments_anchor,
    place_minimized_defer, place_move_min_anchor, place_move_nonresizable_anchor,
    place_skip_nonmovable, place_term_anchor, place_zoomed_normalize, AnchorRule, CaseTuning,
    CounterRule, RaiseStrategy, Step,
};
use hotki::smoketest::case_run::{
    ensure_frame_stability, is_anchored, judge_counters, CaseAction, CaseRun, Observation,
};
use hotki::smoketest::cli::{
    cases_failed, dispatch_command_once, iteration_heading, runner_config, standalone_overlay_args,
    Cli, Commands, Dispatch,
};
use hotki::error::Error as PlaceError;
use hotki::place::adapter::{FakeApplyResponse, FakeOp, FakeWindowConfig};
use hotki::place::common::{PlaceAttemptOptions, PlacementDecisionHooks, RetryLimits};
use hotki::smoketest::dump::dump_text;
use hotki::smoketest::error::{print_hints, DriverError, Error};
use hotki::smoketest::fake_flow::{
    judge_flow, run_fake_adapter_scenarios, run_fake_flow, FakeKind,
};
use hotki::smoketest::focus_guard::{FocusGuard, GuardStep, SnapshotWindow};
use hotki::smoketest::frames::{
    assert_frame_matches, default_wait_config, delta_is_zero, format_delta, format_rect,
    frame_actual_and_scale, frame_within_eps, grid_rect_from_frames, rect_matches, wait_failure,
    Frames, GridCell, RectPx, WindowMode,
};
use hotki::smoketest::hide_case::{
    hide_scenario, is_restored, HideAction, HideEvent, HideRun, HideStage,
};
use hotki::smoketest::place_support::{
    artifact_file, marker, promote_helper_frontmost, resolve_pid, rewrite_expected_artifact,
    GridRequest, ListedWin, MoveRequest, PromoteOp, RequestEvent, RequestStep, SpawnAction,
    SpawnEvent, SpawnPlace, WorldWin,
};
use hotki::smoketest::scenario::{
    check_raise, drain_again, drop_another, ensure_window_ready, focus_nav, focus_tracking, raise,
    resolve_marked, wrong_target, CursorState, FocusEvent, FocusStep, MainOpsDrainGuard,
    ResolveStep, ScenarioPlan, ScenarioState, ScenarioWindow, WaitForFocus, WorldWindow,
};
use hotki::smoketest::scenario_run::{
    ScenarioAction, ScenarioEvent, ScenarioRun, ScenarioStage,
};

const TUNING: CaseTuning =
    CaseTuning { ui_action_delay_ms: 40, grid_cols: 3, grid_rows: 2, eps: 2 };

fn px(x: i32, y: i32, w: i32, h: i32) -> RectPx {
    RectPx { x, y, w, h }
}

fn frames(r: RectPx) -> Frames {
    Frames { authoritative: r, ax: None, cg: None, scale_centi: 200, mode: WindowMode::Normal }
}

fn screens() -> ScreenLayout {
    let screen = Screen { visible: Rect::from_points(0, 0, 1440, 900), scale_milli: 2000 };
    ScreenLayout { screens: vec![screen], main: Some(screen) }
}

#[test]
fn frames_have_to_match() {
    let f = frames(px(1, 2, 3, 4));
    assert!(assert_frame_matches("c", px(1, 2, 3, 5), &f, 1).is_ok());
    let mut raw = f;
    raw.ax = Some(px(1, 2, 3, 4));
    raw.cg = Some(px(0, 2, 3, 4));
    let err = assert_frame_matches("c", px(9, 2, 3, 4), &raw, 1).unwrap_err().describe();
    assert!(err.starts_with(
        "invalid test state: case=<c> scale=<2.00> eps=<1> expected=<9,2,3,4> got=<1,2,3,4> delta="
    ));
    assert!(err.contains(" cg_delta=") && !err.contains(" ax_delta="));
    let delta = px(1, 2, 3, 4).delta(&px(1, 2, 3, 4));
    assert!(delta_is_zero(&delta) && frame_within_eps(&delta, 0));
    assert_eq!(format_rect(px(-1, 2, 3, 4)), "<-1,2,3,4>");
    assert_eq!(format_delta(delta), "<0,0,0,0>");
    assert!(rect_matches(px(0, 0, 1, 1), px(1, 1, 2, 2), 1));
    assert!(!rect_matches(px(0, 0, 1, 1), px(1, 1, 2, 2), 0));
    assert_eq!(
        wait_failure("c", "w").describe(),
        "invalid test state: case=c wait_error=w"
    );
    assert_eq!(frame_actual_and_scale(None).0, None);
    assert_eq!(frame_actual_and_scale(Some(f)), (Some(px(1, 2, 3, 4)), 200));
    assert_eq!(default_wait_config(100, 3).idle_ms, 5);
    assert_eq!(default_wait_config(100, 8).idle_ms, 8);
    let cell = GridCell { cols: 2, rows: 2, col: 1, row: 1 };
    assert_eq!(
        grid_rect_from_frames(&screens(), &frames(px(10, 10, 100, 100)), cell).unwrap(),
        px(720, 450, 720, 450)
    );
}

#[test]
fn plans_end_with_a_check_and_the_end_of_the_helper() {
    let plans = vec![
        place_minimized_defer(),
        place_zoomed_normalize(TUNING),
        place_animated_tween(),
        place_async_delay(),
        place_term_anchor(TUNING),
        place_increments_anchor(TUNING),
        place_grid_cycle(TUNING),
        place_flex_default(TUNING),
        place_flex_force_size_pos(TUNING),
        place_flex_smg(TUNING),
        place_skip_nonmovable(TUNING),
        place_move_min_anchor(TUNING),
        place_move_nonresizable_anchor(TUNING),
    ];
    for plan in &plans {
        assert!(plan.steps.iter().any(|s| matches!(s, Step::Shutdown)), "{}", plan.slug);
        assert!(plan.slug.starts_with("place."), "{}", plan.slug);
    }
    let cycle = place_grid_cycle(TUNING);
    let cells = cycle.steps.iter().filter(|s| matches!(s, Step::RecordCell(_))).count();
    assert_eq!(cells, 6);
    let moves = place_move_min_anchor(TUNING);
    assert!(moves
        .steps
        .iter()
        .any(|s| matches!(s, Step::RequestMove { dir: MoveDir::Right, .. })));
    assert_eq!(deadline_for(40, 20, 2_000), 2_000);
    assert_eq!(deadline_for(400, 20, 2_000), 8_000);
    assert_eq!(deadline_for(u64::MAX, 20, 2_000), u64::MAX);
}

fn drive(run: &mut CaseRun, mut action: CaseAction, actual: Option<RectPx>) -> Result<(), Error> {
    for _ in 0..200 {
        let step = match action {
            CaseAction::Perform(step) => step,
            CaseAction::Finish(result) => return result,
        };
        let seen = match actual {
            Some(r) => r,
            None => run.expected(),
        };
        let report = match step {
            Step::AwaitFrames
            | Step::ReadFrames { .. }
            | Step::AwaitExpected
            | Step::AwaitAnchored(_)
            | Step::FallbackFrames
            | Step::HoldStill { .. } => Observation::Seen(frames(seen)),
            Step::ReadCounters => Observation::Counted(PlacementCounters::new().snapshot()),
            Step::WriteCounters | Step::WriteExpected | Step::WriteBudget | Step::Diagnostics => {
                Observation::Written("file".to_string())
            }
            _ => Observation::Done,
        };
        action = run.next(Ok(report), 3);
    }
    panic!("the case does not end")
}

#[test]
fn a_window_in_its_place_passes() {
    let plan = place_animated_tween();
    let (mut run, action) = CaseRun::start("c".to_string(), plan, screens());
    assert!(drive(&mut run, action, None).is_ok());
}

#[test]
fn a_window_elsewhere_fails() {
    let plan = place_async_delay();
    let (mut run, action) = CaseRun::start("c".to_string(), plan, screens());
    let err = drive(&mut run, action, Some(px(5, 5, 50, 50))).unwrap_err().describe();
    assert!(err.contains("case=<c>"), "{err}");
}

#[test]
fn moves_pass_only_when_the_window_is_anchored() {
    for (plan, wider) in
        [(place_move_min_anchor(TUNING), false), (place_move_nonresizable_anchor(TUNING), true)]
    {
        let slug = plan.slug;
        let begin = |plan| CaseRun::start(slug.to_string(), plan, screens());
        let (mut run, action) = begin(plan);
        assert!(drive(&mut run, action, None).is_ok());
        let expected = run.expected();
        let plan = if wider { place_move_nonresizable_anchor } else { place_move_min_anchor };
        let taller = RectPx { h: expected.h + 40, ..expected };
        let (mut run, action) = begin(plan(TUNING));
        assert!(drive(&mut run, action, Some(taller)).is_ok());
        let broader = RectPx { w: expected.w + 40, ..expected };
        let (mut run, action) = begin(plan(TUNING));
        assert_eq!(drive(&mut run, action, Some(broader)).is_ok(), wider);
        let (mut run, action) = begin(plan(TUNING));
        let err = drive(&mut run, action, Some(px(5, 5, 50, 50))).unwrap_err().describe();
        assert!(err.contains(slug), "{err}");
    }
}

#[test]
fn a_broken_step_ends_a_case() {
    let plan = place_async_delay();
    let (mut run, _) = CaseRun::start("c".to_string(), plan, screens());
    assert!(matches!(
        run.next(Err(Error::HotkiBinNotFound), 0),
        CaseAction::Finish(Err(Error::HotkiBinNotFound))
    ));
}

#[test]
fn anchors_and_counters_are_judged() {
    assert!(is_anchored(AnchorRule::AtLeast, px(0, 0, 12, 12), px(0, 0, 10, 10), 0));
    assert!(!is_anchored(AnchorRule::AtLeast, px(5, 0, 12, 12), px(0, 0, 10, 10), 0));
    let none = PlacementCounters::new().snapshot();
    assert!(judge_counters(CounterRule::OppositeOrder, &none).is_some());
    assert!(judge_counters(CounterRule::Fallback, &none).is_some());
    let r = px(0, 0, 10, 10);
    assert!(ensure_frame_stability("c", r, Some(frames(r)), 1, 50).is_ok());
    assert!(ensure_frame_stability("c", r, Some(frames(px(9, 9, 10, 10))), 1, 50).is_err());
    assert!(ensure_frame_stability("c", r, None, 1, 50).is_err());
}

#[test]
fn scripted_placements_pass() {
    let flows = run_fake_adapter_scenarios().expect("all flows pass");
    assert!(flows.len() >= 3);
    assert!(flows.iter().all(|f| !f.ops.is_empty()));
}

#[test]
fn scripted_windows_need_as_many_requests_as_their_script_says() {
    let flows = run_fake_adapter_scenarios().expect("all flows pass");
    assert!(matches!(flows[0].ops[..], [FakeOp::Apply { .. }]));
    assert!(matches!(flows[1].ops[..], [FakeOp::Apply { .. }, FakeOp::Nudge { .. }]));
    assert!(matches!(flows[2].ops[..], [FakeOp::Apply { .. }, FakeOp::Fallback { .. }]));
    let err = run_fake_flow(
        "plain",
        FakeWindowConfig::default(),
        PlaceAttemptOptions::default(),
        FakeKind::Nudge,
    )
    .unwrap_err();
    assert_eq!(
        err.describe(),
        "invalid test state: expected nudge operation to be recorded \
         (got [Apply { label: \"plain\", pos_first: true }])"
    );
}

fn flow(config: FakeWindowConfig, opts: PlaceAttemptOptions<PlacementDecisionHooks>) -> String {
    run_fake_flow("f", config, opts, FakeKind::Apply).unwrap_err().describe()
}

#[test]
fn failed_flows_show_what_was_seen() {
    let elsewhere = Rect::from_points(320, 420, 640, 480);
    let mut config = FakeWindowConfig::default();
    config.apply_script.push(FakeApplyResponse::new(elsewhere).with_persist(true));
    let none = PlaceAttemptOptions::default().with_retry_limits(RetryLimits::new(0, 0, 0, 0));
    let got = "got: Rect { x: 320.0, y: 420.0, w: 640.0, h: 480.0 }";
    let text = flow(config, none);
    assert!(text.starts_with("invalid test state: f: unexpected outcome VerificationFailure("));
    assert!(text.contains(got), "{text}");
    assert!(text.contains("clamped: ClampFlags { left: false, right: false, "), "{text}");
    assert!(
        text.ends_with(
            "timeline: AttemptTimeline { entries: [AttemptRecord { kind: Primary, \
             order: PosThenSize, attempt_idx: 1, settle_ms: 10, verified: false }] } })"
        ),
        "{text}"
    );
    let mut config = FakeWindowConfig::default();
    config.apply_script.push(FakeApplyResponse::new(elsewhere).with_persist(true));
    let only = PlaceAttemptOptions::default().with_pos_first_only(true);
    let text = flow(config, only);
    assert!(text.contains("unexpected outcome PosFirstOnlyFailure(PlacementFailureContext"));
    let near = Rect { x: 102_400 + 512, y: 204_800, w: 655_360, h: 491_520 };
    let mut config = FakeWindowConfig::default();
    config.apply_script.push(FakeApplyResponse::new(near).with_persist(true));
    assert_eq!(
        flow(config, PlaceAttemptOptions::default()),
        "invalid test state: f: expected Rect { x: 100.0, y: 200.0, w: 640.0, h: 480.0 } \
         got Rect { x: 100.5, y: 200.0, w: 640.0, h: 480.0 }"
    );
    let text = judge_flow("f", &Err(PlaceError::AxCode(-25204)), &Vec::new(), FakeKind::Apply);
    assert_eq!(
        text.unwrap_err().describe(),
        "invalid test state: f: engine error the accessibility layer answered with status -25204"
    );
}

#[test]
fn texts_in_quotes_are_escaped() {
    assert_eq!(dump_text("plain text"), "\"plain text\"");
    for text in ["a\"b\\c", "\n\r\t\0", "\u{1b}[0m\u{7f}\u{5}\u{9f}", "it's", "\u{e9}\u{4e16}"] {
        assert_eq!(dump_text(text), format!("{text:?}"));
    }
}

#[test]
fn helpers_are_spawned_step_by_step() {
    let (mut run, action) = SpawnPlace::spawn_place_state("place.x", px(1, 2, 3, 4), 40);
    assert!(matches!(action, SpawnAction::SpawnHelper));
    assert!(matches!(run.next(SpawnEvent::Done), SpawnAction::AwaitWindow(_)));
    let window = WorldWin { pid: 7, id: 8, title: "T".to_string(), is_on_screen: true };
    let action = run.next(SpawnEvent::Window(window));
    assert!(matches!(action, SpawnAction::RaiseWindow { pid: 7, id: 8, .. }), "{:?}", action);
    assert!(matches!(run.next(SpawnEvent::Done), SpawnAction::ListWindows));
    let action = run.next(SpawnEvent::Listed(vec![ListedWin { id: 8, pid: 9 }]));
    assert!(matches!(action, SpawnAction::Activate(9)), "{:?}", action);
    assert!(matches!(run.next(SpawnEvent::Done), SpawnAction::WriteFile { .. }));
    let action = run.next(SpawnEvent::Done);
    assert!(matches!(action, SpawnAction::AwaitVisible { owner: 9, window: 8, .. }), "{:?}", action);
    match run.next(SpawnEvent::Done) {
        SpawnAction::Ready(target) => assert_eq!((target.pid, target.id), (9, 8)),
        other => panic!("unexpected {:?}", other),
    }
    assert_eq!(resolve_pid(&vec![ListedWin { id: 8, pid: 9 }], 8, 7), 9);
    assert_eq!(resolve_pid(&Vec::new(), 8, 7), 7);
    assert_eq!(artifact_file("place.x", "_expected.txt"), "place_x_expected.txt");
    assert!(marker("place.x", "primary").contains("place.x"));
    assert!(rewrite_expected_artifact(px(1, 2, 3, 4)).starts_with("expected="));
    let ops = promote_helper_frontmost(RaiseStrategy::AppActivate, 40);
    assert!(ops.iter().any(|op| matches!(op, PromoteOp::EnsureFrontmost { .. })));
}

#[test]
fn requests_are_made_again_for_some_time() {
    let (mut request, step) = GridRequest::request_grid_with_options();
    assert!(matches!(step, RequestStep::Request));
    assert!(matches!(
        request.next(RequestEvent::Accepted { has_target: true }),
        RequestStep::Finish(Ok(()))
    ));
    let (mut request, _) = GridRequest::request_grid_with_options();
    let step = request.next(RequestEvent::Refused("other".to_string()));
    assert!(!matches!(step, RequestStep::Finish(Ok(()))), "{:?}", step);
    let (mut request, step) = MoveRequest::request_move();
    assert!(matches!(step, RequestStep::Request));
    assert!(matches!(request.next(Ok(true)), RequestStep::Finish(Ok(()))));
    let (mut request, _) = MoveRequest::request_move();
    assert!(matches!(request.next(Err("w".to_string())), RequestStep::Finish(Err(_))));
}

#[test]
fn the_hide_case_hides_and_shows() {
    assert_eq!(hide_scenario().slug, "hide.toggle");
    let (mut run, action) = HideRun::hide_toggle_roundtrip("c".to_string(), (4, 5), 2);
    assert!(matches!(action, HideAction::ReadFrames));
    let home = frames(px(1, 2, 30, 40));
    let gone = Frames { mode: WindowMode::Hidden, ..home };
    assert!(matches!(run.next(HideEvent::Seen(home)), HideAction::RaiseWindow));
    assert!(matches!(
        run.next(HideEvent::Done),
        HideAction::AwaitMode(WindowMode::Normal)
    ));
    assert!(matches!(run.next(HideEvent::Seen(home)), HideAction::RequestHide(true)));
    assert!(matches!(
        run.next(HideEvent::Accepted(Some((4, 5)))),
        HideAction::AwaitMode(WindowMode::Hidden)
    ));
    assert!(matches!(run.next(HideEvent::Seen(gone)), HideAction::RequestHide(false)));
    assert!(matches!(
        run.next(HideEvent::Accepted(None)),
        HideAction::AwaitRestored(_, 2)
    ));
    assert!(matches!(run.next(HideEvent::Seen(home)), HideAction::ReadFrames));
    assert!(matches!(run.next(HideEvent::Seen(home)), HideAction::Shutdown));
    assert!(matches!(run.next(HideEvent::Done), HideAction::Finish(Ok(()))));
    assert_eq!(run.stage, HideStage::Over);
    assert!(is_restored(&home, px(1, 2, 30, 40), 0));
    assert!(!is_restored(&gone, px(1, 2, 30, 40), 0));
    let (mut run, _) = HideRun::hide_toggle_roundtrip("c".to_string(), (4, 5), 2);
    assert!(matches!(run.next(HideEvent::Unseen), HideAction::Finish(Err(_))));
}

#[test]
fn the_hide_case_waits_until_it_sees_what_it_awaits() {
    let (mut run, _) = HideRun::hide_toggle_roundtrip("c".to_string(), (4, 5), 2);
    let home = frames(px(1, 2, 30, 40));
    let gone = Frames { mode: WindowMode::Hidden, ..home };
    let away = frames(px(500, 2, 30, 40));
    run.next(HideEvent::Seen(home));
    run.next(HideEvent::Done);
    for event in [HideEvent::Seen(gone), HideEvent::Unseen, HideEvent::Done] {
        assert!(matches!(run.next(event), HideAction::AwaitMode(WindowMode::Normal)));
    }
    assert!(matches!(run.next(HideEvent::Seen(home)), HideAction::RequestHide(true)));
    run.next(HideEvent::Accepted(None));
    for event in [HideEvent::Seen(home), HideEvent::Unseen, HideEvent::Done] {
        assert!(matches!(run.next(event), HideAction::AwaitMode(WindowMode::Hidden)));
        assert!(!run.hidden_observed);
    }
    assert!(matches!(run.next(HideEvent::Seen(gone)), HideAction::RequestHide(false)));
    assert!(run.hidden_observed);
    run.next(HideEvent::Accepted(None));
    for event in [HideEvent::Seen(away), HideEvent::Seen(gone), HideEvent::Unseen] {
        assert!(matches!(run.next(event), HideAction::AwaitRestored(_, 2)));
    }
    assert!(matches!(run.next(HideEvent::Seen(home)), HideAction::ReadFrames));
    assert!(matches!(run.next(HideEvent::Seen(away)), HideAction::Finish(Err(_))));
}

fn world(id: u32, title: &str, on_screen: bool) -> WorldWindow {
    WorldWindow {
        pid: 4,
        id,
        title: title.to_string(),
        layer: 0,
        is_on_screen: on_screen,
        z: id,
    }
}

#[test]
fn scenarios_find_their_windows() {
    let plan = raise();
    let mut state = ScenarioState::spawn_scenario(plan.slug, &plan.windows);
    assert!(state.window("primary").is_err());
    let label = plan.windows[0].label;
    state.record(label, "T".to_string(), 4, 5);
    assert_eq!(state.window(label).unwrap(), 0);
    let step = state.after_look();
    assert!(matches!(step, ResolveStep::Again) || matches!(step, ResolveStep::Complete));
    let snap = vec![world(1, "x [m]", false), world(2, "y [m]", true), world(3, "z", true)];
    assert_eq!(resolve_marked(&snap, "[m]"), Some(1));
    assert_eq!(resolve_marked(&snap, "[q]"), None);
    assert_eq!(ensure_window_ready(world(1, "a", true), None).id, 1);
    assert_eq!(ensure_window_ready(world(1, "a", false), Some(world(2, "a", true))).id, 2);
    assert_eq!(ensure_window_ready(world(1, "a", false), None).id, 1);
    let mut draining = true;
    let guard = MainOpsDrainGuard::disable(&mut draining);
    assert!(!draining);
    guard.restore(&mut draining);
    assert!(draining);
    assert!(drop_another(0));
    assert!(!drain_again(0, 0, true));
}

fn started(plan: ScenarioPlan) -> (ScenarioRun, ScenarioAction) {
    let windows = plan
        .windows
        .iter()
        .enumerate()
        .map(|(i, spec)| ScenarioWindow {
            label: spec.label,
            title: format!("{} ({})", spec.title, i),
            pid: 4,
            id: i as u32,
        })
        .collect();
    let (mut run, action) = ScenarioRun::start("case".to_string(), plan);
    assert!(matches!(action, ScenarioAction::Spawn));
    let action = run.next(ScenarioEvent::Spawned(windows));
    (run, action)
}

const QUIET: CursorState = CursorState { lost_count: 0, next_index: 0 };

fn asked(action: &ScenarioAction) -> (&'static str, String) {
    match action {
        ScenarioAction::RequestRaise { label, pattern } => (*label, pattern.clone()),
        other => panic!("unexpected {:?}", other),
    }
}

#[test]
fn scenarios_raise_their_windows_in_order() {
    let plans: Vec<(fn() -> ScenarioPlan, Vec<&str>)> = vec![
        (focus_tracking, vec!["support", "primary"]),
        (focus_nav, vec!["tl", "tr", "br", "bl"]),
        (raise, vec!["primary", "sibling"]),
    ];
    for (plan, labels) in plans {
        let (mut run, mut action) = started(plan());
        for (i, label) in labels.iter().enumerate() {
            let place = run.found.iter().position(|w| w.label == *label).unwrap();
            let target = (4, run.found[place].id);
            assert_eq!(asked(&action).0, *label);
            assert_eq!(run.at, i);
            action = run.next(ScenarioEvent::Answered(Ok(Some(target)), QUIET));
            assert!(matches!(action, ScenarioAction::AskFocus));
            action = run.next(ScenarioEvent::Focus(FocusEvent::Focused(None), 0, QUIET));
            assert!(matches!(action, ScenarioAction::AskFocus));
            action = run.next(ScenarioEvent::Focus(FocusEvent::Focused(None), 1, QUIET));
            assert!(matches!(action, ScenarioAction::PumpAndTake));
            action = run.next(ScenarioEvent::Focus(FocusEvent::Other, 1, QUIET));
            assert!(matches!(action, ScenarioAction::TakeEvent));
            action = run.next(ScenarioEvent::Focus(FocusEvent::Changed(Some(target)), 1, QUIET));
        }
        assert!(matches!(action, ScenarioAction::RecordDiagnostics));
        assert!(matches!(run.next(ScenarioEvent::Done), ScenarioAction::Shutdown));
        assert!(matches!(run.next(ScenarioEvent::Done), ScenarioAction::Finish(Ok(()))));
    }
}

#[test]
fn the_first_failure_ends_a_scenario() {
    let (mut run, action) = started(focus_nav());
    assert_eq!(asked(&action), ("tl", "^focus\\-nav\\-tl \\(0\\)$".to_string()));
    let text = |action: ScenarioAction| match action {
        ScenarioAction::Finish(Err(e)) => e.describe(),
        other => panic!("unexpected {:?}", other),
    };
    let failed = text(run.next(ScenarioEvent::Answered(Ok(Some((4, 2))), QUIET)));
    assert!(failed.contains("raise targeted unexpected window"));
    assert_eq!(run.stage, ScenarioStage::Over);
    let (mut run, _) = started(focus_nav());
    let failed = text(run.next(ScenarioEvent::Answered(Ok(None), QUIET)));
    assert!(failed.contains("did not select a target window (label=tl"));
    let (mut run, _) = started(focus_nav());
    let failed = text(run.next(ScenarioEvent::Answered(Err("no".to_string()), QUIET)));
    assert!(failed.contains("raise request failed: no"));
    let (mut run, _) = started(focus_nav());
    let failed = text(run.next(ScenarioEvent::Failed(Error::invalid("broken"))));
    assert!(failed.contains("broken"));
    let (mut run, _) = ScenarioRun::start("case".to_string(), raise());
    let failed = text(run.next(ScenarioEvent::Spawned(Vec::new())));
    assert!(failed.contains("unknown window label: primary"));
}

#[test]
fn raises_have_to_hit_their_window() {
    assert!(check_raise("l", "t", (4, 5), Ok(Some((4, 5)))).is_ok());
    assert!(check_raise("l", "t", (4, 5), Ok(Some((4, 6)))).is_err());
    assert!(check_raise("l", "t", (4, 5), Err("w".to_string())).is_err());
    assert!(wrong_target("w", (4, 5), (6, 7)).describe().contains("6"));
}

#[test]
fn the_focus_is_awaited() {
    let cursor = CursorState { lost_count: 0, next_index: 0 };
    let (mut wait, step) = WaitForFocus::wait_for_focus("c".to_string(), (4, 5), cursor);
    assert!(matches!(step, FocusStep::AskFocus));
    let step = wait.next(FocusEvent::Focused(Some((4, 5))), 0, cursor);
    assert!(matches!(step, FocusStep::Finish(Ok(()))));
    let (mut wait, _) = WaitForFocus::wait_for_focus("c".to_string(), (4, 5), cursor);
    let step = wait.next(FocusEvent::Focused(None), 0, cursor);
    assert!(!matches!(step, FocusStep::Finish(_)));
}

#[test]
fn the_focus_guard_asserts_again() {
    let mut guard = FocusGuard::acquire(4, "T".to_string(), None, 40);
    let window = SnapshotWindow {
        pid: 4,
        id: 5,
        title: "T".to_string(),
        focused: true,
        on_active_space: true,
    };
    assert_eq!(guard.resolve_window_id(&vec![window]), Some((4, 5)));
    let deadline = guard.raise_deadline_ms;
    for round in 0..3 {
        for _ in 0..3 {
            let step = guard.reassert(Err(Error::invalid("x")), Ok(false));
            assert!(matches!(step, GuardStep::Again));
        }
        assert_eq!(guard.attempts, 3);
        if round < 2 {
            assert!(matches!(guard.reassert(Ok(()), Ok(true)), GuardStep::Settled));
            assert_eq!(guard.attempts, 0);
            assert!(guard.last_error.is_none());
        }
    }
    assert!(matches!(guard.reassert(Ok(()), Ok(false)), GuardStep::Again));
    match guard.reassert(Ok(()), Ok(false)) {
        GuardStep::GiveUp(e) => assert!(e.describe().contains("x")),
        other => panic!("unexpected {:?}", other),
    }
    assert_eq!(guard.attempts, 0);
    for _ in 0..4 {
        assert!(matches!(guard.reassert(Ok(()), Ok(false)), GuardStep::Again));
    }
    match guard.reassert(Ok(()), Ok(false)) {
        GuardStep::GiveUp(e) => assert!(e.describe().contains("failed to settle")),
        other => panic!("unexpected {:?}", other),
    }
    assert_eq!(guard.raise_deadline_ms, deadline);
    assert!(FocusGuard::raise_once(Ok(()), Ok(None)).is_ok());
}

fn cli(command: Commands) -> Cli {
    Cli {
        quiet: false,
        no_warn: true,
        no_fail_fast: true,
        info: Some("i".to_string()),
        run_budget_ms: 9,
        repeat: 2,
        command,
    }
}

#[test]
fn commands_are_dispatched() {
    let config = runner_config(&cli(Commands::All));
    assert!(!config.warn_overlay && !config.fail_fast && !config.quiet);
    assert_eq!(config.overlay_info.as_deref(), Some("i"));
    assert!(matches!(dispatch_command_once(&Commands::All), Dispatch::Everything));
    assert!(matches!(dispatch_command_once(&Commands::List), Dispatch::Catalog));
    match dispatch_command_once(&Commands::Sequence { tests: vec!["a".to_string()] }) {
        Dispatch::Cases(slugs) => assert_eq!(slugs, vec!["a"]),
        other => panic!("unexpected {:?}", other),
    }
    assert_eq!(Commands::Hud.case_slug(), Some("hud"));
    assert_eq!(Commands::List.case_slug(), None);
    assert_eq!(iteration_heading(&cli(Commands::All), 1).as_deref(), Some("Run 1/2"));
    assert_eq!(
        cases_failed(&vec!["a".to_string(), "b".to_string()], "e"),
        "smoketest a, b: ERROR: e"
    );
    let args: Vec<String> = ["p", "--flag", "x"].iter().map(|s| s.to_string()).collect();
    assert_eq!(standalone_overlay_args(&args, "--flag").unwrap(), vec!["warn-overlay", "x"]);
    assert!(standalone_overlay_args(&args, "--other").is_none());
}

#[test]
fn errors_come_with_hints() {
    assert_eq!(
        print_hints(&Error::HotkiBinNotFound),
        vec!["hint: set HOTKI_BIN to an existing binary or run: cargo build --bin hotki"]
    );
    assert_eq!(print_hints(&Error::HudNotVisible { timeout_ms: 1 }).len(), 3);
    assert!(print_hints(&Error::InvalidState("x".to_string())).is_empty());
    let lines = print_hints(&Error::RpcDriver(DriverError::BindingTimeout {
        ident: "k".to_string(),
        timeout_ms: 5,
    }));
    assert_eq!(
        lines,
        vec![
            "hint: RPC driver failed: timed out after 5 ms waiting for binding 'k'",
            "      binding 'k' was never observed; confirm config matches the test.",
        ]
    );
}
