//! Setting a window's position and size, step by step.

use hotki::error::Error;
use hotki::geom::{Axis, Point, Rect, Size};
use hotki::place::apply::{ApplyAction, ApplyEvent, ApplyRun, ApplyStage, SetStep};
use hotki::place::common::SettleTiming;
use hotki::place::fallback::{ParkAction, ParkRun, RegrowRun, RegrowStage};

const EPS: i64 = 2048;

fn timing() -> SettleTiming {
    SettleTiming { apply_stutter_ms: 2, settle_sleep_ms: 20, settle_total_ms: 40 }
}

fn rect(x: i64, y: i64, w: i64, h: i64) -> Rect {
    Rect { x: x * 1024, y: y * 1024, w: w * 1024, h: h * 1024 }
}

fn position(action: &ApplyAction) -> Option<Point> {
    match action {
        ApplyAction::Perform(SetStep::Position(p)) => Some(*p),
        _ => None,
    }
}

fn size(action: &ApplyAction) -> Option<Size> {
    match action {
        ApplyAction::Perform(SetStep::Size(s)) => Some(*s),
        _ => None,
    }
}

#[test]
fn position_and_size_are_set_in_the_asked_order() {
    let target = rect(10, 20, 300, 200);
    let (mut run, action) = ApplyRun::apply_and_wait(&target, true, EPS, timing());
    assert!(matches!(action, ApplyAction::AskSettable));
    let action = run.next(ApplyEvent::Settable(None, Some(true)), 0);
    assert_eq!(position(&action), Some(Point { x: 10 * 1024, y: 20 * 1024 }));
    let action = run.next(ApplyEvent::Done, 0);
    assert!(matches!(action, ApplyAction::Perform(SetStep::Pause(2))));
    let action = run.next(ApplyEvent::Done, 2);
    assert_eq!(size(&action), Some(Size { width: 300 * 1024, height: 200 * 1024 }));
    assert!(matches!(run.next(ApplyEvent::Done, 3), ApplyAction::ReadFrame));
    let action = run.next(ApplyEvent::Frame(rect(10, 20, 300, 100)), 4);
    assert!(matches!(action, ApplyAction::Perform(SetStep::Pause(20))));
    assert!(matches!(run.next(ApplyEvent::Done, 24), ApplyAction::ReadFrame));
    match run.next(ApplyEvent::Frame(target), 25) {
        ApplyAction::Finish(Ok((got, ms))) => assert_eq!((got, ms), (target, 25)),
        other => panic!("unexpected {:?}", other),
    }
    assert_eq!(run.stage, ApplyStage::Over);
}

#[test]
fn fixed_sizes_are_not_set() {
    let target = rect(10, 20, 300, 200);
    let (mut run, _) = ApplyRun::apply_and_wait(&target, false, EPS, timing());
    let action = run.next(ApplyEvent::Settable(Some(true), Some(false)), 0);
    assert!(matches!(action, ApplyAction::Perform(SetStep::WarnNonsettable)));
    let action = run.next(ApplyEvent::Done, 0);
    assert!(position(&action).is_some());
    assert!(matches!(run.next(ApplyEvent::Done, 0), ApplyAction::ReadFrame));
}

#[test]
fn windows_that_do_not_settle_are_reported_when_time_is_up() {
    let (mut run, action) = ApplyRun::apply_size_only_and_wait(300 * 1024, 200 * 1024, EPS, timing());
    assert_eq!(size(&action), Some(Size { width: 300 * 1024, height: 200 * 1024 }));
    assert!(matches!(run.next(ApplyEvent::Done, 1), ApplyAction::ReadFrame));
    let seen = rect(0, 0, 100, 100);
    for elapsed in [2, 22] {
        let action = run.next(ApplyEvent::Frame(seen), elapsed);
        assert!(matches!(action, ApplyAction::Perform(SetStep::Pause(20))));
        assert!(matches!(run.next(ApplyEvent::Done, elapsed + 20), ApplyAction::ReadFrame));
    }
    match run.next(ApplyEvent::Frame(seen), 43) {
        ApplyAction::Finish(Ok((got, ms))) => assert_eq!((got, ms), (seen, 43)),
        other => panic!("unexpected {:?}", other),
    }
}

#[test]
fn failed_setters_end_a_request_but_not_a_nudge() {
    let (mut run, _) = ApplyRun::apply_size_only_and_wait(1, 1, EPS, timing());
    let action = run.next(ApplyEvent::Failed(Error::AxCode(-25204)), 0);
    assert!(matches!(action, ApplyAction::Finish(Err(Error::AxCode(-25204)))));

    let target = rect(10, 20, 300, 200);
    let (mut run, action) =
        ApplyRun::nudge_axis_pos_and_wait(&target, Axis::Vertical, EPS, timing());
    assert!(matches!(action, ApplyAction::ReadFrame));
    let action = run.next(ApplyEvent::Frame(rect(11, 50, 300, 200)), 0);
    assert_eq!(position(&action), Some(Point { x: 11 * 1024, y: 20 * 1024 }));
    let action = run.next(ApplyEvent::Failed(Error::WindowGone), 1);
    assert!(matches!(action, ApplyAction::ReadFrame));
    let action = run.next(ApplyEvent::Failed(Error::WindowGone), 2);
    assert!(matches!(action, ApplyAction::Finish(Err(Error::WindowGone))));
}

/// Carry a request out on a window that takes what it is given.
fn obey(run: &mut RegrowRun, frame: &mut Rect, elapsed: u64) -> ApplyAction {
    let mut action = run.next(ApplyEvent::Settable(Some(true), Some(true)), 0);
    loop {
        let event = match action {
            ApplyAction::Perform(step) => {
                match step {
                    SetStep::Position(p) => (frame.x, frame.y) = (p.x, p.y),
                    SetStep::Size(s) => (frame.w, frame.h) = (s.width, s.height),
                    SetStep::Pause(_) | SetStep::WarnNonsettable => {}
                }
                ApplyEvent::Done
            }
            ApplyAction::ReadFrame => ApplyEvent::Frame(*frame),
            other => return other,
        };
        action = run.next(event, elapsed);
    }
}

#[test]
fn shrinking_moving_and_growing_ends_at_the_target() {
    let target = rect(100, 200, 900, 700);
    let mut frame = rect(5, 6, 1000, 800);
    let (mut run, action) = RegrowRun::fallback_shrink_move_grow(&target, EPS, timing());
    assert!(matches!(action, ApplyAction::ReadFrame));
    assert!(matches!(run.next(ApplyEvent::Frame(frame), 0), ApplyAction::AskSettable));
    assert!(matches!(obey(&mut run, &mut frame, 5), ApplyAction::AskSettable));
    assert_eq!(frame, rect(5, 6, 400, 300));
    assert!(matches!(obey(&mut run, &mut frame, 7), ApplyAction::AskSettable));
    assert_eq!(frame, rect(100, 200, 400, 300));
    match obey(&mut run, &mut frame, 11) {
        ApplyAction::Finish(Ok((got, ms))) => assert_eq!((got, ms), (target, 23)),
        other => panic!("unexpected {:?}", other),
    }
    assert_eq!(run.stage, RegrowStage::Over);

    let (mut run, _) = RegrowRun::fallback_shrink_move_grow(&target, EPS, timing());
    let action = run.next(ApplyEvent::Failed(Error::WindowGone), 0);
    assert!(matches!(action, ApplyAction::Finish(Err(Error::WindowGone))));
}

#[test]
fn windows_are_parked_inside_the_frame() {
    let frame = rect(1440, 0, 1440, 900);
    let target = rect(0, 0, 900, 200);
    let (mut run, action) = ParkRun::preflight_safe_park(&frame, &target, EPS, timing());
    assert!(matches!(action, ParkAction::Perform(ApplyAction::AskSettable)));
    let action = run.next(ApplyEvent::Settable(Some(true), None), 0);
    assert!(matches!(action, ParkAction::Perform(ApplyAction::AskSettable)));
    let ParkAction::Perform(action) = run.next(ApplyEvent::Settable(Some(true), None), 0) else {
        panic!("the park has ended");
    };
    assert_eq!(position(&action), Some(Point { x: 1472 * 1024, y: 32 * 1024 }));
    run.next(ApplyEvent::Done, 0);
    let ParkAction::Perform(action) = run.next(ApplyEvent::Done, 2) else {
        panic!("the park has ended");
    };
    assert_eq!(size(&action), Some(Size { width: 400 * 1024, height: 200 * 1024 }));
    run.next(ApplyEvent::Done, 3);
    let action = run.next(ApplyEvent::Frame(rect(1472, 32, 400, 200)), 4);
    assert!(matches!(action, ParkAction::Finish(Ok(()))));

    let (mut run, _) = ParkRun::preflight_safe_park(&frame, &target, EPS, timing());
    let action = run.next(ApplyEvent::Settable(Some(false), None), 0);
    assert!(matches!(action, ParkAction::Finish(Ok(()))));
}
