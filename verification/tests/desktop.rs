//! Windows, screens and grids of the desktop, and operations on them.

use hotki::error::Error;
use hotki::geom::{one_axis_off, Axis, Point, Rect, Size, UNITS_PER_POINT};
use hotki::pattern::{accept_pattern, raise_pattern};
use hotki::permissions::check_permissions;
use hotki::place::adapter::{FakeAxAdapter, FakeOp, FakeWindowConfig};
use hotki::place::apply::{nudge_position, set_steps, SetStep, SettleGoal, SettleStep, SettleWait};
use hotki::place::common::{
    AttemptRecord, AttemptTimeline, PlaceAttemptOptions, PlacementDecisionHooks, RetryLimits,
    SettleTiming,
};
use hotki::place::fallback::{fallback_steps, park_rect};
use hotki::place::grid::{clamp_to_grid, step_cell, MoveDir};
use hotki::place::metrics::{AttemptKind, AttemptOrder, PlacementCounters};
use hotki::place::normalize::{
    ax_window_for_id_with_retry, normalize_result, LookupStep, NormalizeAction, Normalizer,
    WindowFlag,
};
use hotki::place::ops::{
    ax_check, current_cell, place_grid, place_grid_focused, place_move_grid, raises_after_move,
    WindowState,
};
use hotki::raise::{
    ax_window_id, ax_windows_result, crosses_app_boundary, element_raise_worked, find_ax_window,
    is_listed, match_window_by_title, order_failure_level, RaiseEvent, RaiseStage, RaiseStep,
    RaiseWindow,
};
use hotki::screen::{Screen, ScreenLayout};
use hotki::status::{Level, K_CG_ERROR_FAILURE};
use hotki::wait::{search_window, FindEvent, FindStep, FindWindow};
use hotki::window::{
    active_space_ids, frontmost_window, frontmost_window_for_pid, list_windows,
    list_windows_for_spaces, should_include_window, RawWindow, WindowInfo,
};

fn rect(x: i32, y: i32, w: i32, h: i32) -> Rect {
    Rect::from_points(x, y, w, h)
}

fn layout() -> ScreenLayout {
    let first = Screen { visible: rect(0, 0, 1440, 900), scale_milli: 2000 };
    let second = Screen { visible: rect(1440, 0, 1000, 800), scale_milli: 1000 };
    ScreenLayout { screens: vec![first, second], main: Some(first) }
}

fn raw(pid: i32, number: i32, title: &str, space: Option<i64>) -> RawWindow {
    RawWindow {
        pid: Some(pid),
        number: Some(number),
        space,
        on_screen: Some(true),
        app: Some(format!("app{pid}")),
        title: Some(title.to_string()),
        bounds: None,
        layer: Some(0),
    }
}

fn windows() -> Vec<WindowInfo> {
    list_windows(&vec![raw(1, 10, "A", Some(1)), raw(2, 11, "B", Some(1))], &vec![Some(1)])
}

#[test]
fn titles_are_escaped_in_patterns() {
    assert_eq!(raise_pattern("a.b (c)").unwrap(), "^a\\.b \\(c\\)$");
    assert_eq!(raise_pattern("").unwrap(), "^$");
    let all = "\\.+*?()|[]{}^$#&-~";
    let pattern = raise_pattern(all).unwrap();
    assert!(regex::Regex::new(&pattern).unwrap().is_match(all));
    assert!(!regex::Regex::new(&raise_pattern("a.b").unwrap()).unwrap().is_match("axb"));
    assert_eq!(pattern, format!("^{}$", regex::escape(all)));
    assert_eq!(
        accept_pattern("(".to_string(), Some("w".to_string())).unwrap_err().describe(),
        "invalid test state: invalid raise regex: w"
    );
    assert_eq!(accept_pattern("x".to_string(), None).unwrap(), "x");
}

#[test]
fn patterns_that_are_too_large_are_refused() {
    let err = raise_pattern(&"x".repeat(10_000_000)).unwrap_err().describe();
    assert!(err.starts_with("invalid test state: invalid raise regex: "));
}

#[test]
fn windows_are_listed_by_space() {
    let entries = vec![
        raw(1, 10, "A", Some(1)),
        raw(2, 11, "B", Some(2)),
        RawWindow { pid: None, ..raw(3, 12, "C", Some(1)) },
    ];
    let spaces = vec![Some(1), None];
    assert_eq!(active_space_ids(&spaces), vec![1]);
    let listed = list_windows(&entries, &spaces);
    let ids: Vec<u32> = listed.iter().map(|w| w.id).collect();
    assert_eq!(ids, vec![10]);
    let listed = list_windows_for_spaces(&entries, &spaces, &vec![2]);
    let ids: Vec<u32> = listed.iter().map(|w| w.id).collect();
    assert_eq!(ids, vec![11]);
    assert!(!listed[0].focused);
    assert!(list_windows(&entries, &spaces)[0].focused);
    assert!(should_include_window(Some(2), Some(&vec![2]), false));
    assert!(!should_include_window(Some(3), Some(&vec![2]), true));
}

#[test]
fn the_frontmost_window_is_the_first_ordinary_one() {
    let mut all = windows();
    assert!(all[0].focused && !all[1].focused);
    assert_eq!(frontmost_window(&all, &Vec::new()).map(|w| w.id), Some(10));
    assert_eq!(frontmost_window(&all, &vec!["app1".to_string()]).map(|w| w.id), Some(11));
    assert_eq!(frontmost_window_for_pid(&all, 2).map(|w| w.id), Some(11));
    all[0].layer = 3;
    assert_eq!(frontmost_window(&all, &Vec::new()).map(|w| w.id), Some(11));
}

#[test]
fn only_windows_on_screen_are_frontmost() {
    let mut all = windows();
    for w in all.iter_mut() {
        w.layer = 3;
    }
    assert_eq!(frontmost_window(&all, &Vec::new()).map(|w| w.id), Some(10));
    all[0].is_on_screen = false;
    assert_eq!(frontmost_window(&all, &Vec::new()).map(|w| w.id), Some(11));
    assert!(frontmost_window_for_pid(&all, 1).is_none());
    let mut other = all[0].clone();
    other.id = 12;
    other.is_on_screen = true;
    other.on_active_space = false;
    all.push(other);
    assert_eq!(frontmost_window_for_pid(&all, 1).map(|w| w.id), Some(12));
    for w in all.iter_mut() {
        w.is_on_screen = false;
    }
    assert!(frontmost_window(&all, &Vec::new()).is_none());
    assert!(frontmost_window_for_pid(&all, 1).is_none());
}

#[test]
fn windows_are_found_by_title_until_the_deadline() {
    let all = windows();
    assert_eq!(search_window(&all, 2, "B"), Some(11));
    assert_eq!(search_window(&all, 2, "A"), None);
    let mut find = FindWindow::find_window_id(0, 100, 30);
    assert_eq!(find.step, FindStep::ListActive);
    assert_eq!(find.advance(FindEvent::Searched(None)), FindStep::ListAll);
    assert_eq!(find.advance(FindEvent::Searched(None)), FindStep::CheckClock);
    assert_eq!(find.advance(FindEvent::Clock(80)), FindStep::Sleep(20));
    assert_eq!(find.advance(FindEvent::Rested), FindStep::ListActive);
    assert_eq!(find.advance(FindEvent::Searched(None)), FindStep::CheckClock);
    assert_eq!(find.advance(FindEvent::Clock(100)), FindStep::Finished(None));
    let mut find = FindWindow::find_window_id(0, 100, 0);
    assert_eq!(find.advance(FindEvent::Searched(Some(7))), FindStep::Finished(Some(7)));
}

#[test]
fn raising_tries_the_element_then_the_order_then_the_application() {
    let granted = || RaiseEvent::Access { trusted: true, on_main_thread: true };
    let mut raise = RaiseWindow::raise_window(2, 11);
    assert!(matches!(raise.next(granted()), RaiseStep::LookAtDesktop));
    assert!(matches!(raise.next(RaiseEvent::Desktop(windows())), RaiseStep::CreateApp));
    assert!(matches!(raise.next(RaiseEvent::App(true)), RaiseStep::CopyWindows));
    let elements = RaiseEvent::Elements { status: 0, ids: Some(vec![None, Some(11)]) };
    assert!(matches!(raise.next(elements), RaiseStep::RaiseElement(Some(1))));
    assert!(matches!(raise.next(RaiseEvent::Element(false)), RaiseStep::OrderAbove));
    assert!(matches!(raise.next(RaiseEvent::Order(1000)), RaiseStep::ActivateApp));
    assert!(!raise.raised);
    assert!(matches!(raise.next(RaiseEvent::Activated), RaiseStep::Finish(Ok(()))));
    assert!(raise.raised);
    assert_eq!(raise.stage, RaiseStage::Over);

    let mut raise = RaiseWindow::raise_window(2, 11);
    raise.next(granted());
    raise.next(RaiseEvent::Desktop(windows()));
    raise.next(RaiseEvent::App(true));
    let elements = RaiseEvent::Elements { status: 0, ids: Some(vec![Some(4)]) };
    assert!(matches!(raise.next(elements), RaiseStep::FindByTitle(title) if title == "B"));
    assert!(matches!(raise.next(RaiseEvent::Title(true)), RaiseStep::RaiseElement(None)));
    assert!(matches!(raise.next(RaiseEvent::Element(true)), RaiseStep::Finish(Ok(()))));

    assert_eq!(ax_window_id(Some(7), Some(Some(8))), Some(7));
    assert_eq!(ax_window_id(None, Some(Some(8))), Some(8));
    assert_eq!(ax_window_id(None, Some(None)), Some(0));
    assert_eq!(ax_window_id(None, None), None);
    let all = windows();
    assert!(is_listed(&all, 2, 11));
    assert!(!is_listed(&all, 1, 11));
    assert_eq!(match_window_by_title(2, 11, &all).as_deref(), Some("B"));
    assert_eq!(match_window_by_title(2, 12, &all), None);
    assert_eq!(find_ax_window(&vec![None, Some(4)], 4), Some(1));
    assert_eq!(find_ax_window(&vec![None], 4), None);
    assert!(element_raise_worked(true, true, true));
    assert!(!element_raise_worked(true, true, false));
    assert!(!element_raise_worked(true, false, true));
    assert_eq!(order_failure_level(K_CG_ERROR_FAILURE), Level::TRACE);
    assert!(ax_windows_result(0, Some(1)).is_ok());
    assert!(ax_windows_result::<i32>(-3, None).is_err());
    let front = frontmost_window(&all, &Vec::new());
    assert!(crosses_app_boundary(&front, 2));
    assert!(!crosses_app_boundary(&front, 1));
}

#[test]
fn windows_that_cannot_be_raised_say_why() {
    let mut raise = RaiseWindow::raise_window(2, 11);
    let step = raise.next(RaiseEvent::Access { trusted: false, on_main_thread: true });
    assert!(matches!(step, RaiseStep::Finish(Err(Error::Permission))));
    let mut raise = RaiseWindow::raise_window(2, 11);
    let step = raise.next(RaiseEvent::Access { trusted: true, on_main_thread: false });
    assert!(matches!(step, RaiseStep::Finish(Err(Error::MainThread))));
    let mut raise = RaiseWindow::raise_window(2, 99);
    raise.next(RaiseEvent::Access { trusted: true, on_main_thread: true });
    assert!(matches!(raise.next(RaiseEvent::Desktop(windows())), RaiseStep::Finish(Ok(()))));
    assert!(!raise.raised);
    let mut raise = RaiseWindow::raise_window(2, 11);
    raise.next(RaiseEvent::Access { trusted: true, on_main_thread: true });
    raise.next(RaiseEvent::Desktop(windows()));
    assert!(matches!(raise.next(RaiseEvent::App(false)), RaiseStep::Finish(Err(Error::AppElement))));
    let mut raise = RaiseWindow::raise_window(2, 11);
    raise.next(RaiseEvent::Access { trusted: true, on_main_thread: true });
    raise.next(RaiseEvent::Desktop(windows()));
    raise.next(RaiseEvent::App(true));
    let step = raise.next(RaiseEvent::Elements { status: -25204, ids: None });
    assert!(matches!(step, RaiseStep::Finish(Err(Error::AxCode(-25204)))));
}

#[test]
fn screens_are_found_by_point() {
    let all = layout();
    let at = Point::from_points(1500, 10);
    assert_eq!(all.screen_at(at).unwrap().scale_milli, 1000);
    assert_eq!(all.visible_frame_containing_point(at), rect(1440, 0, 1000, 800));
    assert_eq!(all.scale_factor_containing_point(at), 1000);
    let off = Point::from_points(9000, 9000);
    assert_eq!(all.screen_at(off), all.main);
    assert_eq!(all.visible_frame_containing_point(off), rect(0, 0, 1440, 900));
}

#[test]
fn rectangles_are_compared_within_a_tolerance() {
    let a = rect(10, 10, 100, 100);
    let b = Rect::new(a.x + 512, a.y, a.w, a.h);
    assert!(a.approx_eq(&b, 512));
    assert!(!a.approx_eq(&b, 511));
    assert_eq!(one_axis_off(a.diffs(&rect(20, 10, 100, 100)), 1024), Some(Axis::Horizontal));
    assert_eq!(one_axis_off(a.diffs(&rect(10, 20, 100, 100)), 1024), Some(Axis::Vertical));
    assert_eq!(one_axis_off(a.diffs(&rect(20, 20, 100, 100)), 1024), None);
    assert!(a.contains(Point::from_points(110, 110)));
    assert!(!a.contains(Point::from_points(111, 110)));
    assert_eq!(a.center(), Point::from_points(60, 60));
    assert_eq!(a.right(), 110 * UNITS_PER_POINT as i128);
}

#[test]
fn cells_tile_the_screen() {
    let vf = rect(0, 0, 1440, 900);
    assert_eq!(vf.grid_cell(2, 2, 0, 0), rect(0, 0, 720, 450));
    assert_eq!(vf.grid_cell(2, 2, 1, 1), rect(720, 450, 720, 450));
    let pos = Point::from_points(720, 450);
    let size = Size { width: 720 * UNITS_PER_POINT, height: 450 * UNITS_PER_POINT };
    assert_eq!(vf.grid_find_cell(2, 2, pos, size, 2048), Some((1, 1)));
    assert_eq!(current_cell(&vf, 2, 2, pos, size, 2048), (1, 1));
    assert_eq!(clamp_to_grid(9, 3), 2);
    assert_eq!(clamp_to_grid(0, 0), 0);
    assert_eq!(step_cell(MoveDir::Right, 1, 0, 2, 2), (1, 0));
    assert_eq!(step_cell(MoveDir::Left, 1, 0, 2, 2), (0, 0));
    assert_eq!(step_cell(MoveDir::Down, 1, 0, 2, 2), (1, 1));
    assert_eq!(step_cell(MoveDir::Up, 1, 0, 2, 2), (1, 0));
}

#[test]
fn permissions_are_read_one_by_one() {
    let status = check_permissions(true, false, true);
    assert!(status.accessibility_ok() && !status.input_ok() && status.screen_recording_ok());
    assert!(matches!(ax_check(false, true), Err(Error::Permission)));
    assert!(matches!(ax_check(true, false), Err(Error::MainThread)));
    assert!(ax_check(true, true).is_ok());
}

#[test]
fn frames_are_set_in_order_and_awaited() {
    let timing = SettleTiming::new(2, 20, 40);
    let target = rect(1, 2, 30, 40);
    let steps = set_steps(&target, true, Some(true), Some(true), timing);
    assert!(matches!(steps[0], SetStep::Position(p) if p == Point::from_points(1, 2)));
    assert!(matches!(steps[1], SetStep::Pause(2)));
    assert!(matches!(steps[2], SetStep::Size(_)));
    let none = set_steps(&target, true, Some(false), Some(false), timing);
    assert!(none.iter().any(|s| matches!(s, SetStep::WarnNonsettable)));
    let current = Point::from_points(7, 8);
    assert_eq!(
        nudge_position(current, &target, Axis::Horizontal),
        Point { x: target.x, y: current.y }
    );
    let mut wait = SettleWait::new(SettleGoal::Frame(target), 1024, timing);
    assert!(matches!(wait.observe(rect(9, 9, 9, 9), 1), SettleStep::Sleep(20)));
    assert!(matches!(wait.observe(target, 21), SettleStep::Report(r, 21) if r == target));
}

#[test]
fn fallbacks_shrink_move_and_grow() {
    let steps = fallback_steps(Point::from_points(5, 5), &rect(100, 200, 640, 480));
    assert_eq!(steps.len(), 3);
    assert_eq!(steps[2].rect, rect(100, 200, 640, 480));
    let vf = rect(0, 0, 1440, 900);
    assert!(park_rect(&vf, &rect(0, 0, 10, 10), Some(true), Some(true)).is_some());
}

#[test]
fn windows_are_made_ordinary_before_they_move() {
    let (mut n, action) = Normalizer::normalize_before_move(true);
    assert_eq!(action, NormalizeAction::Read(WindowFlag::FullScreen));
    assert_eq!(n.next(Some(false)), NormalizeAction::Read(WindowFlag::Minimized));
    assert_eq!(n.next(Some(true)), NormalizeAction::Clear(WindowFlag::Minimized));
    assert_eq!(n.next(None), NormalizeAction::Read(WindowFlag::Minimized));
    assert!(matches!(n.next(Some(true)), NormalizeAction::Sleep(_)));
    assert_eq!(n.next(None), NormalizeAction::Read(WindowFlag::Minimized));
    assert_eq!(n.next(Some(false)), NormalizeAction::Read(WindowFlag::Zoomed));
    assert_eq!(n.next(Some(false)), NormalizeAction::ForgetSettable);
    assert_eq!(n.next(None), NormalizeAction::PerformRaise);
    assert_eq!(n.next(None), NormalizeAction::RaiseWindow);
    assert_eq!(n.next(None), NormalizeAction::Ready);
    assert!(normalize_result(NormalizeAction::Ready).is_ok());
    let (mut n, _) = Normalizer::normalize_before_move(false);
    let last = n.next(Some(true));
    assert_eq!(last, NormalizeAction::GiveUp);
    assert!(matches!(normalize_result(last), Err(Error::FullscreenActive)));
    assert!(matches!(
        ax_window_for_id_with_retry::<i32>(0, Ok(4)),
        LookupStep::Finished(Ok(4))
    ));
    assert!(matches!(
        ax_window_for_id_with_retry::<i32>(0, Err(Error::FocusedWindow)),
        LookupStep::Retry { attempts: 1, .. }
    ));
    assert!(matches!(
        ax_window_for_id_with_retry::<i32>(0, Err(Error::Permission)),
        LookupStep::Finished(Err(Error::Permission))
    ));
}

fn state(win: hotki::place::adapter::AxElem, role: &str) -> WindowState {
    WindowState {
        win,
        role: role.to_string(),
        subrole: String::new(),
        pos: Point::from_points(10, 10),
        size: Size { width: 300 * UNITS_PER_POINT, height: 200 * UNITS_PER_POINT },
    }
}

#[test]
fn windows_are_placed_in_their_cell() {
    let mut fake = FakeAxAdapter::new();
    let mut config = FakeWindowConfig::default();
    config.initial_rect = rect(10, 10, 300, 200);
    let win = fake.new_window(config);
    let mut counters = PlacementCounters::new();
    place_grid_focused(&mut fake, &mut counters, &state(win, "AXWindow"), layout(), 2, 2, 1, 1)
        .expect("placed");
    assert_eq!(fake.current_rect(win), Some(rect(720, 450, 720, 450)));
    assert_eq!(counters.snapshot().primary.verified, 1);

    let opts = PlaceAttemptOptions::<PlacementDecisionHooks>::default();
    place_grid(&mut fake, &mut counters, &state(win, "AXWindow"), layout(), 2, 2, 0, 0, opts)
        .expect("placed");
    assert_eq!(fake.current_rect(win), Some(rect(0, 0, 720, 450)));

    let mut moved = state(win, "AXWindow");
    moved.pos = Point::from_points(0, 0);
    moved.size = Size { width: 720 * UNITS_PER_POINT, height: 450 * UNITS_PER_POINT };
    let result =
        place_move_grid(&mut fake, &mut counters, &moved, layout(), 2, 2, MoveDir::Right);
    assert!(result.is_ok() && !raises_after_move(&result));
    assert_eq!(fake.current_rect(win), Some(rect(720, 0, 720, 450)));
}

#[test]
fn sheets_are_left_alone() {
    let mut fake = FakeAxAdapter::new();
    let win = fake.new_window(FakeWindowConfig::default());
    let before = fake.current_rect(win);
    let mut counters = PlacementCounters::new();
    place_grid_focused(&mut fake, &mut counters, &state(win, "AXSheet"), layout(), 2, 2, 1, 1)
        .expect("skipped");
    assert_eq!(fake.current_rect(win), before);
    assert!(fake.operations(win).iter().all(|op| !matches!(op, FakeOp::Apply { .. })));
}

#[test]
fn attempts_are_recorded_and_described() {
    let mut timeline = AttemptTimeline::new();
    assert!(timeline.is_empty());
    timeline.push(AttemptRecord {
        kind: AttemptKind::Primary,
        order: AttemptOrder::PosThenSize,
        attempt_idx: 1,
        settle_ms: 20,
        verified: false,
    });
    assert_eq!(timeline.len(), 1);
    assert_eq!(timeline.describe(), format!("[{}]", timeline.entries()[0].describe()));
    let limits = RetryLimits::new(1, 2, 3, 4);
    assert_eq!(limits.max_fallback_runs, 4);
}
