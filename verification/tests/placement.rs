//! Placement of windows against the scripted adapter, grids and metrics.

use hotki::error::{Error, PlacementErrorDetails};
use hotki::geom::{clamp_flags, Axis, Point, Rect, Size, UNITS_PER_POINT};
use hotki::place::adapter::{
    AxAdapter, AxElem, FakeApplyResponse, FakeAxAdapter, FakeOp, FakeWindowConfig,
};
use hotki::place::common::{
    choose_initial_order, safe_park_required, AttemptTimeline, PlaceAttemptOptions,
    PlacementContext, PlacementDecisionHooks, RetryLimits, SettleTiming, VERIFY_EPS,
};
use hotki::place::engine::{PlacementEngine, PlacementEngineConfig, PlacementGrid, PlacementOutcome};
use hotki::place::fallback::{safe_size, FALLBACK_SAFE_MAX_H, FALLBACK_SAFE_MAX_W};
use hotki::place::grid::grid_guess_cell_by_pos;
use hotki::place::metrics::{
    placement_counters_reset, placement_counters_snapshot, AttemptKind, PlacementCounters,
};
use hotki::place::normalize::{skip_reason_for_role_subrole, NormalizeAction, WindowFlag};
use hotki::place::run::{PlaceAction, PlaceEvent, PlaceKind, PlaceRun, PlaceStage};
use hotki::screen::{globalize_rect, Screen, ScreenLayout};

fn rect(x: i32, y: i32, w: i32, h: i32) -> Rect {
    Rect::from_points(x, y, w, h)
}

fn layout() -> ScreenLayout {
    let screen = Screen { visible: rect(0, 0, 1440, 900), scale_milli: 2000 };
    ScreenLayout { screens: vec![screen], main: Some(screen) }
}

fn config() -> PlacementEngineConfig<'static> {
    PlacementEngineConfig {
        label: "test",
        grid: PlacementGrid { cols: 4, rows: 3, col: 1, row: 1 },
    }
}

fn run(
    fake: &mut FakeAxAdapter,
    win: AxElem,
    opts: PlaceAttemptOptions<PlacementDecisionHooks>,
) -> PlacementOutcome {
    let ctx = PlacementContext::new(
        win,
        rect(100, 200, 640, 480),
        rect(0, 0, 1440, 900),
        opts,
        layout(),
    );
    let engine = PlacementEngine::new(&ctx, config());
    let mut counters = PlacementCounters::new();
    engine.execute(fake, &mut counters).expect("engine should succeed")
}

#[test]
fn placement_succeeds_on_primary_attempt() {
    let mut fake = FakeAxAdapter::new();
    let win = fake.new_window(FakeWindowConfig::default());
    match run(&mut fake, win, PlaceAttemptOptions::default()) {
        PlacementOutcome::Verified(success) => {
            assert_eq!(success.final_rect, rect(100, 200, 640, 480));
            assert!(success.anchored_target.is_none());
        }
        other => panic!("unexpected outcome: {:?}", other),
    }
    let ops = fake.operations(win);
    assert!(
        ops.iter().any(|op| matches!(op, FakeOp::Apply { .. })),
        "apply op missing: {:?}",
        ops
    );
}

#[test]
fn placement_recovers_with_axis_nudge() {
    let mut fake = FakeAxAdapter::new();
    let mut config = FakeWindowConfig::default();
    config
        .apply_script
        .push(FakeApplyResponse::new(rect(100, 210, 640, 480)).with_persist(true));
    config.nudge_script.push(FakeApplyResponse::new(rect(100, 200, 640, 480)));
    let win = fake.new_window(config);
    match run(&mut fake, win, PlaceAttemptOptions::default()) {
        PlacementOutcome::Verified(success) => {
            assert_eq!(success.final_rect, rect(100, 200, 640, 480))
        }
        other => panic!("unexpected outcome: {:?}", other),
    }
    let ops = fake.operations(win);
    assert!(
        ops.iter().any(|op| matches!(op, FakeOp::Nudge { .. })),
        "nudge op missing: {:?}",
        ops
    );
}

#[test]
fn placement_uses_fallback_on_retry_exhaustion() {
    let mut fake = FakeAxAdapter::new();
    let mut config = FakeWindowConfig::default();
    config
        .apply_script
        .push(FakeApplyResponse::new(rect(220, 340, 640, 480)).with_persist(true));
    config.fallback_script.push(FakeApplyResponse::new(rect(100, 200, 640, 480)));
    let win = fake.new_window(config);
    let opts = PlaceAttemptOptions::default().with_retry_limits(RetryLimits::new(0, 0, 0, 1));
    match run(&mut fake, win, opts) {
        PlacementOutcome::Verified(success) => {
            assert_eq!(success.final_rect, rect(100, 200, 640, 480))
        }
        other => panic!("unexpected outcome: {:?}", other),
    }
    let ops = fake.operations(win);
    assert!(
        ops.iter().any(|op| matches!(op, FakeOp::Fallback { .. })),
        "fallback op missing: {:?}",
        ops
    );
}

#[test]
fn placement_reports_failure_when_all_attempts_exhausted() {
    let mut fake = FakeAxAdapter::new();
    let mut config = FakeWindowConfig::default();
    config
        .apply_script
        .push(FakeApplyResponse::new(rect(320, 420, 640, 480)).with_persist(true));
    config
        .fallback_script
        .push(FakeApplyResponse::new(rect(320, 420, 640, 480)).with_persist(true));
    let win = fake.new_window(config);
    let opts = PlaceAttemptOptions::default().with_retry_limits(RetryLimits::new(0, 0, 0, 1));
    match run(&mut fake, win, opts) {
        PlacementOutcome::VerificationFailure(failure) => {
            assert_eq!(failure.got, rect(320, 420, 640, 480));
            assert!(failure.timeline.entries().len() >= 2);
        }
        other => panic!("unexpected outcome: {:?}", other),
    }
    let ops = fake.operations(win);
    assert!(
        ops.iter().any(|op| matches!(op, FakeOp::Fallback { .. })),
        "fallback op missing: {:?}",
        ops
    );
}

fn narrow_then_fitting() -> FakeWindowConfig {
    let mut config = FakeWindowConfig::default();
    config
        .apply_script
        .push(FakeApplyResponse::new(rect(100, 200, 600, 480)).with_persist(true));
    config
        .size_only_script
        .push(FakeApplyResponse::new(rect(100, 200, 640, 480)).with_persist(true));
    config
}

#[test]
fn a_size_that_fits_is_anchored_while_anchors_are_left() {
    let mut fake = FakeAxAdapter::new();
    let win = fake.new_window(narrow_then_fitting());
    let opts = PlaceAttemptOptions::default().with_retry_limits(RetryLimits::new(0, 1, 2, 1));
    match run(&mut fake, win, opts) {
        PlacementOutcome::Verified(success) => {
            assert_eq!(success.final_rect, rect(100, 200, 640, 480));
            assert_eq!(success.anchored_target, Some(rect(100, 200, 640, 480)));
        }
        other => panic!("unexpected outcome: {:?}", other),
    }
    assert!(matches!(fake.operations(win).last(), Some(FakeOp::Apply { .. })));
}

#[test]
fn a_size_that_fits_ends_the_placement_without_anchors() {
    let mut fake = FakeAxAdapter::new();
    let win = fake.new_window(narrow_then_fitting());
    let opts = PlaceAttemptOptions::default().with_retry_limits(RetryLimits::new(0, 0, 0, 0));
    match run(&mut fake, win, opts) {
        PlacementOutcome::Verified(success) => {
            assert_eq!(success.final_rect, rect(100, 200, 640, 480));
            assert!(success.anchored_target.is_none());
        }
        other => panic!("unexpected outcome: {:?}", other),
    }
    assert!(matches!(fake.operations(win).last(), Some(FakeOp::SizeOnly { .. })));
}

#[test]
fn failures_list_attempts_that_did_not_verify() {
    let mut fake = FakeAxAdapter::new();
    let mut config = FakeWindowConfig::default();
    for _ in 0..4 {
        config
            .apply_script
            .push(FakeApplyResponse::new(rect(320, 420, 640, 480)).with_persist(true));
    }
    config
        .fallback_script
        .push(FakeApplyResponse::new(rect(320, 420, 640, 480)).with_persist(true));
    let win = fake.new_window(config);
    match run(&mut fake, win, PlaceAttemptOptions::default()) {
        PlacementOutcome::VerificationFailure(failure) => {
            let entries = failure.timeline.entries();
            assert!(matches!(entries[0].kind, AttemptKind::Primary));
            for (i, entry) in entries.iter().enumerate() {
                assert_eq!(entry.attempt_idx as usize, i + 1);
                assert!(!entry.verified);
            }
        }
        other => panic!("unexpected outcome: {:?}", other),
    }
}

fn moved_by_the_second_attempt() -> FakeWindowConfig {
    let mut config = FakeWindowConfig::default();
    config
        .apply_script
        .push(FakeApplyResponse::new(rect(100, 200, 640, 480)).with_persist(true));
    config
        .apply_script
        .push(FakeApplyResponse::new(rect(320, 420, 640, 480)).with_persist(true));
    config
}

#[test]
fn a_forced_attempt_that_ends_elsewhere_fails() {
    let mut fake = FakeAxAdapter::new();
    let win = fake.new_window(moved_by_the_second_attempt());
    let opts = PlaceAttemptOptions::default()
        .with_force_second_attempt(true)
        .with_retry_limits(RetryLimits::new(0, 0, 0, 0));
    match run(&mut fake, win, opts) {
        PlacementOutcome::VerificationFailure(failure) => {
            assert_eq!(failure.got, rect(320, 420, 640, 480));
            let verified: Vec<bool> =
                failure.timeline.entries().iter().map(|entry| entry.verified).collect();
            assert_eq!(verified, vec![true, false]);
        }
        other => panic!("unexpected outcome: {:?}", other),
    }
    assert_eq!(fake.current_rect(win), Some(rect(320, 420, 640, 480)));
    assert_eq!(fake.operations(win).len(), 2);
}

#[test]
fn the_last_fallback_recovers_a_window_that_a_forced_attempt_moved() {
    let mut fake = FakeAxAdapter::new();
    let mut config = moved_by_the_second_attempt();
    config
        .fallback_script
        .push(FakeApplyResponse::new(rect(100, 200, 640, 480)).with_persist(true));
    let win = fake.new_window(config);
    let opts = PlaceAttemptOptions::default()
        .with_force_second_attempt(true)
        .with_retry_limits(RetryLimits::new(0, 0, 0, 1));
    match run(&mut fake, win, opts) {
        PlacementOutcome::Verified(success) => {
            assert_eq!(success.final_rect, rect(100, 200, 640, 480));
            assert!(success.anchored_target.is_none());
        }
        other => panic!("unexpected outcome: {:?}", other),
    }
    assert!(matches!(fake.operations(win).last(), Some(FakeOp::Fallback { .. })));
}

#[test]
fn a_forced_attempt_that_is_not_allowed_fails() {
    for (force, fails) in [(false, false), (true, true)] {
        let mut fake = FakeAxAdapter::new();
        let win = fake.new_window(FakeWindowConfig::default());
        let opts = PlaceAttemptOptions::default()
            .with_force_second_attempt(force)
            .with_pos_first_only(true);
        match run(&mut fake, win, opts) {
            PlacementOutcome::PosFirstOnlyFailure(failure) => {
                assert!(fails);
                assert_eq!(failure.got, rect(100, 200, 640, 480));
                assert_eq!(failure.timeline.entries().len(), 1);
            }
            PlacementOutcome::Verified(_) => assert!(!fails),
            other => panic!("unexpected outcome: {:?}", other),
        }
        assert_eq!(fake.operations(win).len(), 1);
    }
}

/// A window that cannot be moved, and counts what it is asked.
struct Stubborn {
    asked: u32,
    at: Rect,
}

impl AxAdapter for Stubborn {
    fn settable_pos_size(&mut self, _win: AxElem) -> (Option<bool>, Option<bool>) {
        self.asked += 1;
        (Some(true), Some(true))
    }

    fn apply_and_wait(
        &mut self,
        _label: &str,
        _win: AxElem,
        _target: &Rect,
        _pos_first: bool,
        _eps: i64,
        _timing: SettleTiming,
    ) -> Result<(Rect, u64), Error> {
        Ok((self.at, 1))
    }

    fn apply_size_only_and_wait(
        &mut self,
        _label: &str,
        _win: AxElem,
        _width: i64,
        _height: i64,
        _eps: i64,
        _timing: SettleTiming,
    ) -> Result<(Rect, u64), Error> {
        Ok((self.at, 1))
    }

    fn nudge_axis_pos_and_wait(
        &mut self,
        _label: &str,
        _win: AxElem,
        _target: &Rect,
        _axis: Axis,
        _eps: i64,
        _timing: SettleTiming,
    ) -> Result<(Rect, u64), Error> {
        Ok((self.at, 1))
    }

    fn fallback_shrink_move_grow(
        &mut self,
        _label: &str,
        _win: AxElem,
        _target: &Rect,
        _eps: i64,
        _timing: SettleTiming,
    ) -> Result<(Rect, u64), Error> {
        Ok((self.at, 1))
    }

    fn preflight_safe_park(
        &mut self,
        _label: &str,
        _win: AxElem,
        _visible_frame: &Rect,
        _target: &Rect,
        _eps: i64,
        _timing: SettleTiming,
    ) -> Result<(), Error> {
        Ok(())
    }
}

#[test]
fn what_can_be_set_is_asked_again_after_a_failure() {
    let ask = |at: Rect| {
        let mut window = Stubborn { asked: 0, at };
        let ctx = PlacementContext::new(
            AxElem { id: 0 },
            rect(100, 200, 640, 480),
            rect(0, 0, 1440, 900),
            PlaceAttemptOptions::<PlacementDecisionHooks>::default(),
            layout(),
        );
        let mut counters = PlacementCounters::new();
        let outcome = PlacementEngine::new(&ctx, config()).execute(&mut window, &mut counters);
        (window.asked, outcome)
    };
    let (asked, outcome) = ask(rect(100, 200, 640, 480));
    assert!(matches!(outcome, Ok(PlacementOutcome::Verified(_))));
    assert_eq!(asked, 1);
    let (asked, outcome) = ask(rect(700, 700, 640, 480));
    assert!(matches!(outcome, Ok(PlacementOutcome::VerificationFailure(_))));
    assert_eq!(asked, 2);
}

fn placing(kind: PlaceKind) -> PlaceRun {
    let (mut run, action) = PlaceRun::start(kind);
    assert!(matches!(action, PlaceAction::CheckAccess));
    assert!(matches!(run.next(PlaceEvent::Access(true, true)), PlaceAction::FindWindow));
    run
}

#[test]
fn placements_need_access_and_a_window() {
    let (mut run, _) = PlaceRun::start(PlaceKind::ById);
    let action = run.next(PlaceEvent::Access(false, true));
    assert!(matches!(action, PlaceAction::Finish(Err(Error::Permission))));
    let (mut run, _) = PlaceRun::start(PlaceKind::ById);
    let action = run.next(PlaceEvent::Access(true, false));
    assert!(matches!(action, PlaceAction::Finish(Err(Error::MainThread))));
    let mut run = placing(PlaceKind::Focused);
    let action = run.next(PlaceEvent::Found(Err(Error::FocusedWindow)));
    assert!(matches!(action, PlaceAction::Finish(Err(Error::FocusedWindow))));
    let mut run = placing(PlaceKind::Move);
    for _ in 0..40 {
        let action = run.next(PlaceEvent::Found(Err(Error::FocusedWindow)));
        assert!(matches!(action, PlaceAction::Pause(20)));
        assert!(matches!(run.next(PlaceEvent::Rested), PlaceAction::FindWindow));
    }
    let action = run.next(PlaceEvent::Found(Err(Error::FocusedWindow)));
    assert!(matches!(action, PlaceAction::Finish(Err(Error::FocusedWindow))));
}

#[test]
fn full_screen_windows_are_not_touched() {
    let mut run = placing(PlaceKind::Focused);
    let action = run.next(PlaceEvent::Found(Ok(AxElem { id: 3 })));
    assert!(matches!(
        action,
        PlaceAction::Normalize(NormalizeAction::Read(WindowFlag::FullScreen))
    ));
    let action = run.next(PlaceEvent::Stepped(Some(true)));
    assert!(matches!(action, PlaceAction::Finish(Err(Error::FullscreenActive))));
    assert_eq!(run.stage, PlaceStage::Over);
}

fn ready(kind: PlaceKind) -> PlaceRun {
    let mut run = placing(kind);
    run.next(PlaceEvent::Found(Ok(AxElem { id: 3 })));
    for flag in [WindowFlag::Minimized, WindowFlag::Zoomed] {
        match run.next(PlaceEvent::Stepped(Some(false))) {
            PlaceAction::Normalize(NormalizeAction::Read(read)) => assert_eq!(read, flag),
            other => panic!("unexpected {:?}", other),
        }
    }
    let action = run.next(PlaceEvent::Stepped(Some(false)));
    assert!(matches!(action, PlaceAction::Normalize(NormalizeAction::PerformRaise)));
    if !matches!(kind, PlaceKind::Focused) {
        let action = run.next(PlaceEvent::Stepped(None));
        assert!(matches!(action, PlaceAction::Normalize(NormalizeAction::RaiseWindow)));
    }
    assert!(matches!(run.next(PlaceEvent::Stepped(None)), PlaceAction::ReadKind));
    run
}

fn placed_kind(run: &mut PlaceRun, role: &str) -> PlaceAction {
    run.next(PlaceEvent::Kind(role.to_string(), "AXStandardWindow".to_string()))
}

#[test]
fn moves_that_fail_raise_the_window() {
    let mut run = ready(PlaceKind::Focused);
    assert!(matches!(placed_kind(&mut run, "AXSheet"), PlaceAction::Finish(Ok(()))));
    let failed = || Error::PlacementVerificationFailed {
        op: "place_move_grid",
        details: PlacementErrorDetails {
            expected: rect(0, 0, 1, 1),
            got: rect(0, 0, 1, 1),
            epsilon: 0,
            clamped: clamp_flags(&rect(0, 0, 1, 1), &rect(0, 0, 1, 1), 0),
            visible_frame: rect(0, 0, 1, 1),
            timeline: AttemptTimeline::new(),
        },
    };
    for kind in [PlaceKind::Focused, PlaceKind::Move] {
        let mut run = ready(kind);
        assert!(matches!(placed_kind(&mut run, "AXWindow"), PlaceAction::ReadFrame));
        let pos = Point { x: 5, y: 6 };
        let size = Size { width: 7, height: 8 };
        match run.next(PlaceEvent::Measured(Ok((pos, size)))) {
            PlaceAction::Place(window) => {
                assert_eq!(window.win, AxElem { id: 3 });
                assert_eq!((window.pos, window.size), (pos, size));
                assert_eq!(window.role, "AXWindow");
            }
            other => panic!("unexpected {:?}", other),
        }
        let mut action = run.next(PlaceEvent::Placed(Err(failed())));
        if matches!(kind, PlaceKind::Move) {
            assert!(matches!(action, PlaceAction::RaiseWindow));
            action = run.next(PlaceEvent::Raised);
        }
        assert!(matches!(
            action,
            PlaceAction::Finish(Err(Error::PlacementVerificationFailed { .. }))
        ));
    }
    let mut run = ready(PlaceKind::Move);
    placed_kind(&mut run, "AXWindow");
    let action = run.next(PlaceEvent::Measured(Err(Error::WindowGone)));
    assert!(matches!(action, PlaceAction::Finish(Err(Error::WindowGone))));
}

#[test]
fn order_both_settable_defaults_pos_first() {
    assert!(choose_initial_order(Some(true), Some(true)));
}

#[test]
fn order_size_only_prefers_size_first() {
    assert!(!choose_initial_order(Some(false), Some(true)));
}

#[test]
fn order_pos_only_prefers_pos_first() {
    assert!(choose_initial_order(Some(true), Some(false)));
}

#[test]
fn order_unknown_defaults_pos_first() {
    assert!(choose_initial_order(None, None));
    assert!(choose_initial_order(Some(true), None));
    assert!(choose_initial_order(None, Some(true)));
}

#[test]
fn clamp_flags_detects_each_edge_and_none() {
    let vf = rect(100, 200, 800, 600);
    let eps = 2 * UNITS_PER_POINT;

    let f = clamp_flags(&rect(100, 250, 400, 300), &vf, eps);
    assert!(f.left && !f.right && !f.top && !f.bottom, "left only: {}", f.describe());

    let f = clamp_flags(&rect(600, 250, 300, 300), &vf, eps);
    assert!(!f.left && f.right && !f.top && !f.bottom, "right only: {}", f.describe());

    let f = clamp_flags(&rect(400, 200, 200, 300), &vf, eps);
    assert!(!f.left && !f.right && !f.top && f.bottom, "bottom only: {}", f.describe());

    let f = clamp_flags(&rect(400, 700, 200, 100), &vf, eps);
    assert!(!f.left && !f.right && f.top && !f.bottom, "top only: {}", f.describe());

    let f = clamp_flags(&rect(100, 200, 800, 600), &vf, eps);
    assert!(f.left && f.right && f.top && f.bottom);
    assert_eq!(f.describe(), "left,right,bottom,top");

    let f = clamp_flags(&rect(150, 250, 500, 400), &vf, eps);
    assert!(!f.any());
    assert_eq!(f.describe(), "none");
}

#[test]
fn default_safe_park_matches_previous_heuristic() {
    let target = rect(0, 0, 640, 480);
    let vf_secondary = rect(2560, 0, 1440, 900);
    let vf_primary = rect(0, 0, 1440, 900);
    assert!(safe_park_required(&target, &vf_secondary, VERIFY_EPS));
    assert!(!safe_park_required(&target, &vf_primary, VERIFY_EPS));
    let far_target = rect(400, 300, 640, 480);
    assert!(!safe_park_required(&far_target, &vf_secondary, VERIFY_EPS));
}

#[test]
fn safe_park_preflight_uses_safe_dimensions() {
    let target = rect(10, 20, 900, 700);
    assert_eq!(target.w.min(FALLBACK_SAFE_MAX_W), 400 * UNITS_PER_POINT);
    assert_eq!(target.h.min(FALLBACK_SAFE_MAX_H), 300 * UNITS_PER_POINT);
    let safe = safe_size(&target);
    assert_eq!(safe.width, 400 * UNITS_PER_POINT);
    assert_eq!(safe.height, 300 * UNITS_PER_POINT);
}

#[test]
fn guesses_cell_in_middle_of_grid() {
    let cell = grid_guess_cell_by_pos(&rect(0, 0, 1200, 900), 4, 3, Point::from_points(650, 620));
    assert_eq!(cell, (2, 2));
}

#[test]
fn clamps_negative_coordinates_to_zero() {
    let cell =
        grid_guess_cell_by_pos(&rect(200, 100, 800, 600), 3, 2, Point::from_points(120, 80));
    assert_eq!(cell, (0, 0));
}

#[test]
fn clamps_out_of_range_to_last_cell() {
    let cell = grid_guess_cell_by_pos(&rect(50, 50, 500, 400), 5, 4, Point::from_points(900, 600));
    assert_eq!(cell, (4, 3));
}

#[test]
fn placement_counters_snapshot_and_reset() {
    let mut counters = PlacementCounters::new();
    counters.reset();
    counters.record_attempt(AttemptKind::Primary, 12, true);
    let snapshot = placement_counters_snapshot(&counters);
    assert_eq!(snapshot.primary.attempts, 1);
    assert_eq!(snapshot.primary.verified, 1);
    assert_eq!(snapshot.primary.settle_ms_total, 12);
    placement_counters_reset(&mut counters);
    let reset_snapshot = placement_counters_snapshot(&counters);
    assert_eq!(reset_snapshot.primary.attempts, 0);
    assert_eq!(reset_snapshot.primary.verified, 0);
    assert_eq!(reset_snapshot.primary.settle_ms_total, 0);
}

#[test]
fn skips_sheet_by_role() {
    assert_eq!(
        skip_reason_for_role_subrole("AXSheet", "AXStandardWindow"),
        Some("role=AXSheet")
    );
}

#[test]
fn skips_popover_when_marked_in_role_or_subrole() {
    assert_eq!(skip_reason_for_role_subrole("AXPopover", "AXStandardWindow"), Some("popover"));
    assert_eq!(skip_reason_for_role_subrole("AXWindow", "AXPopover"), Some("popover"));
}

#[test]
fn skips_dialog_variants() {
    assert_eq!(skip_reason_for_role_subrole("AXWindow", "AXDialog"), Some("dialog"));
    assert_eq!(skip_reason_for_role_subrole("AXWindow", "AXSystemDialog"), Some("dialog"));
}

#[test]
fn skips_floating_palettes() {
    assert_eq!(skip_reason_for_role_subrole("AXWindow", "AXFloatingWindow"), Some("floating"));
}

#[test]
fn allows_standard_windows() {
    assert_eq!(skip_reason_for_role_subrole("AXWindow", "AXStandardWindow"), None);
}

#[test]
fn globalize_rect_adds_origin() {
    let u = UNITS_PER_POINT;
    let g = globalize_rect(rect(10, 20, 300, 400), 100 * u, 200 * u);
    assert_eq!(g.x, 110 * u);
    assert_eq!(g.y, 220 * u);
    assert_eq!(g.w, 300 * u);
    assert_eq!(g.h, 400 * u);
}
