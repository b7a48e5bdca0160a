//! Windows of a session: displays, notifications and where they stand.

use hotki::geom::Rect;
use hotki::smoketest::windows::{
    describe_window, describe_windows, display_for_rect, format_points, is_notification_candidate,
    sort_lowest_first, verify_display_alignment, verify_notification_window, DisplayFrame,
    HudDisplay, WindowSnapshot,
};

const PT: i64 = 1024;

fn rect(x: i64, y: i64, w: i64, h: i64) -> Rect {
    Rect { x: x * PT, y: y * PT, w: w * PT, h: h * PT }
}

fn display() -> DisplayFrame {
    DisplayFrame {
        id: 4,
        frame: rect(0, 0, 3200, 1800),
        visible_y: 24 * PT,
        visible_height: 1776 * PT,
    }
}

fn window(title: &str, layer: i32, width: i64, height: i64) -> WindowSnapshot {
    WindowSnapshot {
        pid: 42,
        id: 7,
        title: title.to_string(),
        layer,
        is_on_screen: false,
        bounds: rect(3200 - width - 12, 12, width, height),
        display_id: Some(4),
    }
}

#[test]
fn notification_candidate_accepts_generic_title_with_popup_geometry() {
    let displays = vec![display()];
    let candidate = window("hotki", 3, 420, 78);

    assert!(is_notification_candidate(&candidate, &displays));
}

#[test]
fn notification_candidate_rejects_normal_app_window_geometry() {
    let displays = vec![display()];
    let main_window = window("hotki", 0, 800, 600);

    assert!(!is_notification_candidate(&main_window, &displays));
}

#[test]
fn notification_candidate_requires_known_display_for_generic_title() {
    let displays = vec![display()];
    let mut candidate = window("hotki", 3, 420, 78);
    candidate.display_id = None;

    assert!(!is_notification_candidate(&candidate, &displays));
}

#[test]
fn notifications_stand_at_the_top_right() {
    let displays = vec![display()];
    let mut w = window("Hotki Notification", 3, 420, 78);
    w.bounds.y = 36 * PT;
    assert!(verify_notification_window(&w, &displays).is_ok());

    let mut left = w.clone();
    left.bounds.x = 100 * PT;
    assert_eq!(
        verify_notification_window(&left, &displays).unwrap_err().describe(),
        "invalid test state: notification right edge misaligned: window_max_x=520 \
         display_max_x=3200 delta=2680 tolerance=14 window=title=Hotki Notification pid=42 id=7 \
         display_id=Some(4) on_screen=false layer=3 bounds=(100, 36, 420, 78)"
    );
    let mut low = w.clone();
    low.bounds.y = 100 * PT;
    assert!(verify_notification_window(&low, &displays)
        .unwrap_err()
        .describe()
        .starts_with(
            "invalid test state: notification top edge misaligned: window_y=100 expected_top=36 \
             visible_y=24 display_y=0 delta=64 tolerance=14 window="
        ));
    let mut tall = w.clone();
    tall.bounds.h = 1790 * PT;
    assert!(verify_notification_window(&tall, &displays)
        .unwrap_err()
        .describe()
        .starts_with("invalid test state: notification height exceeds max: height=1790 max=1752"));
    let mut lost = w.clone();
    lost.display_id = Some(9);
    assert_eq!(
        verify_notification_window(&lost, &displays).unwrap_err().describe(),
        "invalid test state: display 9 missing during notification check"
    );
    lost.display_id = None;
    assert_eq!(
        verify_notification_window(&lost, &displays).unwrap_err().describe(),
        "invalid test state: notification window 7 missing display id"
    );
}

#[test]
fn lengths_are_shown_in_points() {
    assert_eq!(format_points(0), "0");
    assert_eq!(format_points(1536), "1.5");
    assert_eq!(format_points(-1536), "-1.5");
    assert_eq!(format_points(1), "0.0009765625");
    assert_eq!(describe_windows(&Vec::new()), "<none>");
    let both = vec![window("a", 1, 10, 10), window("b", 1, 10, 10)];
    assert_eq!(
        describe_windows(&both),
        format!("{}; {}", describe_window(&both[0]), describe_window(&both[1]))
    );
}

#[test]
fn the_lowest_window_is_first_and_equals_keep_their_order() {
    let mut a = window("a", 1, 10, 10);
    let mut b = window("b", 1, 10, 10);
    let c = window("c", 1, 10, 30);
    a.bounds.y = 10 * PT;
    b.bounds.y = 10 * PT;
    let sorted = sort_lowest_first(&vec![a, b, c]);
    let titles: Vec<&str> = sorted.iter().map(|w| w.title.as_str()).collect();
    assert_eq!(titles, vec!["c", "a", "b"]);
}

#[test]
fn the_hud_has_to_be_on_the_focused_display() {
    let at = |id: Option<u32>| {
        let mut w = window("h", 1, 10, 10);
        w.display_id = id;
        w
    };
    let one = vec![at(Some(1)), at(None), at(Some(1))];
    assert!(verify_display_alignment(1, None, HudDisplay::Unseen, &one).is_ok());
    assert!(verify_display_alignment(2, Some(1), HudDisplay::Named(1), &one).is_ok());
    let fails = |focused, hud, windows: &Vec<WindowSnapshot>| {
        verify_display_alignment(2, focused, hud, windows).unwrap_err().describe()
    };
    assert_eq!(
        fails(None, HudDisplay::Named(1), &one),
        "invalid test state: unable to resolve focused display for verification"
    );
    assert_eq!(
        fails(Some(1), HudDisplay::Unseen, &one),
        "invalid test state: no HUD snapshot observed after activation"
    );
    assert_eq!(
        fails(Some(1), HudDisplay::Unnamed, &one),
        "invalid test state: HUD snapshot missing active display"
    );
    assert_eq!(
        fails(Some(2), HudDisplay::Named(1), &one),
        "invalid test state: active display mismatch: hud=1 focused=2"
    );
    assert_eq!(
        fails(Some(1), HudDisplay::Named(1), &vec![at(None)]),
        "invalid test state: HUD windows missing display identifiers"
    );
    assert_eq!(
        fails(Some(1), HudDisplay::Named(1), &vec![at(Some(3)), at(Some(1)), at(Some(3))]),
        "invalid test state: HUD windows on displays [1, 3] (expected 1)"
    );
}

#[test]
fn a_window_is_on_the_display_of_its_middle() {
    let second = DisplayFrame {
        id: 5,
        frame: rect(3200, 0, 1000, 1000),
        visible_y: 0,
        visible_height: 1000 * PT,
    };
    let displays = vec![display(), second];
    assert_eq!(display_for_rect(&rect(3100, 10, 400, 10), &displays), Some(5));
    assert_eq!(display_for_rect(&rect(3000, 10, 300, 10), &displays), Some(4));
    assert_eq!(display_for_rect(&rect(9000, 9000, 1, 1), &displays), None);
    let mut mirrored = displays.clone();
    mirrored[0].frame = rect(40, 40, 20, 20);
    mirrored[1].frame = rect(0, 0, 100, 100);
    assert_eq!(display_for_rect(&rect(0, 0, 100, 100), &mirrored), Some(mirrored[1].id));
    assert_eq!(display_for_rect(&rect(0, 0, 1, 1), &Vec::new()), None);
}
