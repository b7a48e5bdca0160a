//! The hide test: a window is moved off the screen by keys and brought back.

use vstd::prelude::*;
use vstd::string::*;

use crate::geom::{near, Rect, UNITS_PER_POINT};
use crate::smoketest::config::{ms, NANOS_PER_MS};
use crate::smoketest::error::Error;
use crate::text::text_eq;
use crate::window::WindowInfo;

verus! {

/// One piece of keyboard input.
#[derive(Debug, Clone, Copy, PartialEq, Eq)]
pub enum Stroke {
    /// Press and release a key.
    Key(&'static str),
    /// Pause for milliseconds.
    Pause(u64),
}

/// The config of the test.
pub open spec fn hide_config_text() -> Seq<char> {
    "(\n    keys: [\n        (\"shift+cmd+0\", \"activate\", keys([\n            (\"h\", \"hide\", keys([\n                (\"t\", \"toggle\", hide(toggle)),\n                (\"o\", \"on\", hide(on)),\n                (\"f\", \"off\", hide(off)),\n            ])),\n            (\"shift+cmd+0\", \"exit\", exit, (global: true, hide: true)),\n        ])),\n        (\"esc\", \"Back\", pop, (global: true, hide: true, hud_only: true)),\n    ]\n)\n"@
}

/// The config of the test.
pub fn hide_config() -> (r: String)
    ensures
        r@ == hide_config_text(),
{
    "(\n    keys: [\n        (\"shift+cmd+0\", \"activate\", keys([\n            (\"h\", \"hide\", keys([\n                (\"t\", \"toggle\", hide(toggle)),\n                (\"o\", \"on\", hide(on)),\n                (\"f\", \"off\", hide(off)),\n            ])),\n            (\"shift+cmd+0\", \"exit\", exit, (global: true, hide: true)),\n        ])),\n        (\"esc\", \"Back\", pop, (global: true, hide: true, hud_only: true)),\n    ]\n)\n".to_owned()
}

/// Timing and distances of the test.
#[derive(Debug, Clone, Copy, PartialEq, Eq, Structural)]
pub struct HideTuning {
    /// How much longer the helper lives than the test may take, in milliseconds.
    pub helper_extra_ms: u64,
    /// Pause between looks for a window or a movement, in milliseconds.
    pub key_event_delay_ms: u64,
    /// Pause between keys, in milliseconds.
    pub ui_action_delay_ms: u64,
    /// Pause after the window has moved, in milliseconds.
    pub ui_stabilize_delay_ms: u64,
    /// Pause between looks at the restored window, in milliseconds.
    pub restore_poll_ms: u64,
    /// The least time for the window to move, in milliseconds.
    pub hide_min_timeout_ms: u64,
    /// The least time for the window to come back, in milliseconds.
    pub hide_secondary_min_timeout_ms: u64,
    /// How far the window is taken to move where no screen is known, in points.
    pub position_offset_pts: i32,
}

/// How long the helper lives.
pub fn helper_time(timeout_ms: u64, extra_ms: u64) -> (r: u64)
    ensures
        r == if timeout_ms + extra_ms > u64::MAX {
            u64::MAX as int
        } else {
            timeout_ms + extra_ms
        },
{
    match timeout_ms.checked_add(extra_ms) {
        Some(n) => n,
        None => u64::MAX,
    }
}

/// Whether some window has a process and a title.
pub open spec fn is_listed(windows: Seq<WindowInfo>, pid: i32, title: Seq<char>) -> bool {
    exists|i: int|
        0 <= i < windows.len() && (#[trigger] windows[i]).pid == pid && windows[i].title@ == title
}

/// Whether a helper's window is there: it is listed, or its application reports it.
pub fn helper_ready(windows: &Vec<WindowInfo>, pid: i32, title: &str, reported: bool) -> (r: bool)
    ensures
        r <==> is_listed(windows@, pid, title@) || reported,
{
    if reported {
        return true;
    }
    let mut i: usize = 0;
    while i < windows.len()
        invariant
            i <= windows@.len(),
            forall|j: int|
                0 <= j < i ==> !((#[trigger] windows@[j]).pid == pid && windows@[j].title@
                    == title@),
        decreases windows@.len() - i,
    {
        if windows[i].pid == pid && text_eq(windows[i].title.as_str(), title) {
            return true;
        }
        i = i + 1;
    }
    false
}

/// Points as units.
pub open spec fn points(n: int) -> int {
    n * UNITS_PER_POINT
}

/// Where the left edge of the hidden window is expected: one point left of the right
/// edge of the visible screen, or a guess to the right.
pub open spec fn target_left(frame: Rect, visible: Option<Rect>, offset_pts: i32) -> int {
    match visible {
        Some(v) => v.x + v.w - points(1),
        None => frame.x + points(offset_pts as int),
    }
}

/// Where the left edge of the hidden window is expected.
pub fn target_x(frame: Rect, visible: Option<Rect>, offset_pts: i32) -> (r: i128)
    ensures
        r == target_left(frame, visible, offset_pts),
{
    let unit: i128 = 1024;
    match visible {
        Some(v) => v.x as i128 + v.w as i128 - unit,
        None => {
            let off: i128 = offset_pts as i128;
            frame.x as i128 + off * 1024
        },
    }
}

fn approx(a: i128, b: i128, eps_pts: i128) -> (r: bool)
    requires
        -8 * i64::MAX <= a <= 8 * i64::MAX,
        -8 * i64::MAX <= b <= 8 * i64::MAX,
        0 <= eps_pts <= 100,
    ensures
        r == near(a as int, b as int, points(eps_pts as int)),
{
    let d: i128 = if a >= b {
        a - b
    } else {
        b - a
    };
    d <= eps_pts * 1024
}

/// Whether a window has moved: away from where it was, or to where it is expected.
pub open spec fn has_moved(left: i64, start: Rect, target: int) -> bool {
    !near(left as int, start.x as int, points(2)) || near(left as int, target, points(6))
}

/// Whether a window is back where it was, in its size.
pub open spec fn is_back(frame: Rect, start: Rect) -> bool {
    &&& near(frame.x as int, start.x as int, points(8))
    &&& near(frame.y as int, start.y as int, points(8))
    &&& near(frame.w as int, start.w as int, points(8))
    &&& near(frame.h as int, start.h as int, points(8))
}

/// Whether a window has moved.
pub fn moved_off(left: i64, start: Rect, target: i128) -> (r: bool)
    requires
        -8 * i64::MAX <= target <= 8 * i64::MAX,
    ensures
        r == has_moved(left, start, target as int),
{
    !approx(left as i128, start.x as i128, 2) || approx(left as i128, target, 6)
}

/// Whether a window is back.
pub fn moved_back(frame: Rect, start: Rect) -> (r: bool)
    ensures
        r == is_back(frame, start),
{
    approx(frame.x as i128, start.x as i128, 8) && approx(frame.y as i128, start.y as i128, 8)
        && approx(frame.w as i128, start.w as i128, 8) && approx(
        frame.h as i128,
        start.h as i128,
        8,
    )
}

/// How far the test has come.
#[derive(Debug, Clone, Copy, PartialEq, Eq, Structural)]
pub enum HideTestStage {
    /// The helper's window is awaited.
    Appearing,
    /// The session is started and its HUD is awaited.
    Activating,
    /// The window is measured.
    Measuring,
    /// The screen is measured.
    Aiming,
    /// Hiding is typed.
    Hiding,
    /// The window has to move.
    Moving,
    /// Showing is typed.
    Showing,
    /// The window has to come back.
    Returning,
    /// The session is ended, after this result.
    Cleaning(HideTestResult),
    /// The test is over.
    Over,
}

/// What the test came to.
#[derive(Debug, Clone, Copy, PartialEq, Eq, Structural)]
pub enum HideTestResult {
    /// The window was hidden and has come back.
    Passed,
    /// The window did not move.
    NotMoved,
    /// The window did not come back.
    NotRestored,
}

/// What was learned in the test.
#[derive(Debug)]
pub enum HideTestEvent {
    /// The step is done.
    Done,
    /// The step has failed.
    Failed(Error),
    /// Whether the window, or the HUD, is there.
    Answer(bool),
    /// There is no window.
    NoWindow,
    /// The left edge of the window, where its position can be read.
    Position(Option<i64>),
    /// The frame of the window, where position and size can be read.
    Frame(Option<Rect>),
    /// The visible part of the main screen, where it is known.
    Screen(Option<Rect>),
    /// The pause is over.
    Rested,
}

/// What to do in the test.
#[derive(Debug)]
pub enum HideTestAction {
    /// Look for the helper's window.
    LookForWindow,
    /// Start the session and wait for its HUD, in milliseconds.
    StartSession(u64),
    /// Measure the window: the one with the title, or else the first.
    MeasureWindow,
    /// Measure the visible part of the main screen.
    MeasureScreen,
    /// Type.
    Type(Vec<Stroke>),
    /// Read the position of the first window.
    ReadPosition,
    /// Measure the first window.
    ReadFrame,
    /// Pause for milliseconds.
    Pause(u64),
    /// End the session.
    EndSession,
    /// The test is over.
    Finish(Result<(), Error>),
}

/// A run of the test.
#[derive(Debug)]
pub struct HideTest {
    /// Title of the helper's window.
    pub title: String,
    /// Allowance in milliseconds.
    pub timeout_ms: u64,
    /// Timing and distances.
    pub tuning: HideTuning,
    /// When the wait at hand ends.
    pub deadline: u128,
    /// Where the window was at first.
    pub start: Rect,
    /// Where its left edge is expected when it is hidden.
    pub target: i128,
    /// How far the test has come.
    pub stage: HideTestStage,
}

/// What is typed to hide the window.
pub open spec fn hide_strokes(tuning: HideTuning) -> Seq<Stroke> {
    seq![Stroke::Key("h"), Stroke::Pause(tuning.ui_action_delay_ms), Stroke::Key("o")]
}

/// What is typed to show the window.
pub open spec fn show_strokes(tuning: HideTuning) -> Seq<Stroke> {
    seq![
        Stroke::Pause(tuning.ui_stabilize_delay_ms),
        Stroke::Key("shift+cmd+0"),
        Stroke::Pause(tuning.ui_action_delay_ms),
        Stroke::Key("h"),
        Stroke::Pause(tuning.ui_action_delay_ms),
        Stroke::Key("f"),
    ]
}

/// The larger of two numbers.
pub open spec fn larger(a: u64, b: u64) -> u64 {
    if a >= b {
        a
    } else {
        b
    }
}

impl HideTest {
    /// Whether the target is in range.
    pub open spec fn valid(&self) -> bool {
        -8 * i64::MAX <= self.target <= 8 * i64::MAX
    }

    /// How long the window may take to move.
    pub open spec fn move_ms(&self) -> u64 {
        larger(self.tuning.hide_min_timeout_ms, self.timeout_ms / 4)
    }

    /// How long the window may take to come back.
    pub open spec fn return_ms(&self) -> u64 {
        larger(self.tuning.hide_secondary_min_timeout_ms, self.timeout_ms / 3)
    }

    /// Whether two runs differ in nothing but deadline, stage and measures.
    pub open spec fn same_setup(&self, other: &HideTest) -> bool {
        &&& self.title == other.title
        &&& self.timeout_ms == other.timeout_ms
        &&& self.tuning == other.tuning
    }

    /// Whether two runs differ in nothing but deadline and stage.
    pub open spec fn same_measures(&self, other: &HideTest) -> bool {
        &&& self.same_setup(other)
        &&& self.start == other.start
        &&& self.target == other.target
    }

    /// Begin the test, once the helper is started.
    pub fn run_hide_test(title: String, timeout_ms: u64, tuning: HideTuning, now: u64) -> (r: (
        Self,
        HideTestAction,
    ))
        ensures
            r.0.title == title,
            r.0.timeout_ms == timeout_ms,
            r.0.tuning == tuning,
            r.0.deadline == now + timeout_ms * NANOS_PER_MS,
            r.0.valid(),
            if timeout_ms > 0 {
                r.0.stage is Appearing && r.1 is LookForWindow
            } else {
                r.0.stage is Over && not_visible(r.0, r.1)
            },
    {
        let start = Rect { x: 0, y: 0, w: 0, h: 0 };
        let deadline: u128 = now as u128 + ms(timeout_ms);
        let mut run = HideTest {
            title,
            timeout_ms,
            tuning,
            deadline,
            start,
            target: 0,
            stage: HideTestStage::Appearing,
        };
        if timeout_ms == 0 {
            run.stage = HideTestStage::Over;
            let e = run.unseen();
            return (run, HideTestAction::Finish(Err(e)));
        }
        (run, HideTestAction::LookForWindow)
    }

    fn unseen(&self) -> (r: Error)
        ensures
            r matches Error::FocusNotObserved { timeout_ms, expected } && timeout_ms
                == self.timeout_ms && expected@ == "helper window '"@ + self.title@
                + "' not visible"@,
    {
        let mut s = "helper window '".to_owned();
        s.append(self.title.as_str());
        s.append("' not visible");
        Error::FocusNotObserved { timeout_ms: self.timeout_ms, expected: s }
    }

    fn unmeasured(&self, what: &str) -> (r: Error)
        ensures
            r matches Error::FocusNotObserved { timeout_ms, expected } && timeout_ms
                == self.timeout_ms && expected@ == what@,
    {
        Error::FocusNotObserved { timeout_ms: self.timeout_ms, expected: what.to_owned() }
    }

    fn on_appearing(&mut self, event: HideTestEvent, now: u64) -> (r: HideTestAction)
        requires
            old(self).valid(),
            old(self).stage is Appearing,
        ensures
            final(self).valid(),
            final(self).same_setup(old(self)),
            hide_test_answer(*old(self), event, now, *final(self), r),
    {
        match event {
            HideTestEvent::Answer(ready) => {
                if ready {
                    self.stage = HideTestStage::Activating;
                    HideTestAction::StartSession(self.timeout_ms)
                } else {
                    HideTestAction::Pause(self.tuning.key_event_delay_ms)
                }
            },
            HideTestEvent::Rested => {
                if (now as u128) < self.deadline {
                    HideTestAction::LookForWindow
                } else {
                    self.stage = HideTestStage::Over;
                    HideTestAction::Finish(Err(self.unseen()))
                }
            },
            HideTestEvent::Failed(e) => {
                self.stage = HideTestStage::Over;
                HideTestAction::Finish(Err(e))
            },
            _ => HideTestAction::LookForWindow,
        }
    }

    fn on_measures(&mut self, event: HideTestEvent, now: u64) -> (r: HideTestAction)
        requires
            old(self).valid(),
            old(self).stage is Activating || old(self).stage is Measuring || old(
                self,
            ).stage is Aiming,
        ensures
            final(self).valid(),
            final(self).same_setup(old(self)),
            hide_test_answer(*old(self), event, now, *final(self), r),
    {
        match (self.stage, event) {
            (_, HideTestEvent::Failed(e)) => {
                self.stage = HideTestStage::Over;
                HideTestAction::Finish(Err(e))
            },
            (HideTestStage::Activating, HideTestEvent::Answer(up)) => {
                if up {
                    self.stage = HideTestStage::Measuring;
                    HideTestAction::MeasureWindow
                } else {
                    self.stage = HideTestStage::Over;
                    HideTestAction::Finish(
                        Err(Error::HudNotVisible { timeout_ms: self.timeout_ms }),
                    )
                }
            },
            (HideTestStage::Activating, _) => HideTestAction::StartSession(self.timeout_ms),
            (HideTestStage::Measuring, HideTestEvent::NoWindow) => {
                self.stage = HideTestStage::Over;
                HideTestAction::Finish(Err(self.unmeasured("AX window for helper")))
            },
            (HideTestStage::Measuring, HideTestEvent::Frame(None)) => {
                self.stage = HideTestStage::Over;
                HideTestAction::Finish(Err(self.unmeasured("AX frame for helper window")))
            },
            (HideTestStage::Measuring, HideTestEvent::Frame(Some(frame))) => {
                self.start = frame;
                self.stage = HideTestStage::Aiming;
                HideTestAction::MeasureScreen
            },
            (HideTestStage::Measuring, _) => HideTestAction::MeasureWindow,
            (_, HideTestEvent::Screen(visible)) => {
                self.target = target_x(self.start, visible, self.tuning.position_offset_pts);
                self.stage = HideTestStage::Hiding;
                let strokes = vec![
                    Stroke::Key("h"),
                    Stroke::Pause(self.tuning.ui_action_delay_ms),
                    Stroke::Key("o"),
                ];
                assert(strokes@ =~= hide_strokes(self.tuning));
                HideTestAction::Type(strokes)
            },
            (_, _) => HideTestAction::MeasureScreen,
        }
    }

    fn clean(&mut self, result: HideTestResult) -> (r: HideTestAction)
        ensures
            final(self).same_measures(old(self)),
            final(self).deadline == old(self).deadline,
            final(self).stage == HideTestStage::Cleaning(result),
            r is EndSession,
    {
        self.stage = HideTestStage::Cleaning(result);
        HideTestAction::EndSession
    }

    fn on_typed(&mut self, event: HideTestEvent, now: u64) -> (r: HideTestAction)
        requires
            old(self).valid(),
            old(self).stage is Hiding || old(self).stage is Showing,
        ensures
            final(self).valid(),
            final(self).same_setup(old(self)),
            hide_test_answer(*old(self), event, now, *final(self), r),
    {
        let hiding = matches!(self.stage, HideTestStage::Hiding);
        if let HideTestEvent::Failed(e) = event {
            self.stage = HideTestStage::Over;
            return HideTestAction::Finish(Err(e));
        }
        let part: u64 = if hiding {
            self.timeout_ms / 4
        } else {
            self.timeout_ms / 3
        };
        let least: u64 = if hiding {
            self.tuning.hide_min_timeout_ms
        } else {
            self.tuning.hide_secondary_min_timeout_ms
        };
        let allowed: u64 = if least >= part {
            least
        } else {
            part
        };
        self.deadline = now as u128 + ms(allowed);
        if allowed == 0 {
            assert(allowed * NANOS_PER_MS == 0);
            return if hiding {
                self.clean(HideTestResult::NotMoved)
            } else {
                self.clean(HideTestResult::NotRestored)
            };
        }
        if hiding {
            self.stage = HideTestStage::Moving;
            HideTestAction::ReadPosition
        } else {
            self.stage = HideTestStage::Returning;
            HideTestAction::ReadFrame
        }
    }

    fn on_moving(&mut self, event: HideTestEvent, now: u64) -> (r: HideTestAction)
        requires
            old(self).valid(),
            old(self).stage is Moving,
        ensures
            final(self).valid(),
            final(self).same_setup(old(self)),
            hide_test_answer(*old(self), event, now, *final(self), r),
    {
        match event {
            HideTestEvent::Failed(e) => {
                self.stage = HideTestStage::Over;
                HideTestAction::Finish(Err(e))
            },
            HideTestEvent::Position(Some(left)) => {
                if moved_off(left, self.start, self.target) {
                    self.stage = HideTestStage::Showing;
                    let strokes = vec![
                        Stroke::Pause(self.tuning.ui_stabilize_delay_ms),
                        Stroke::Key("shift+cmd+0"),
                        Stroke::Pause(self.tuning.ui_action_delay_ms),
                        Stroke::Key("h"),
                        Stroke::Pause(self.tuning.ui_action_delay_ms),
                        Stroke::Key("f"),
                    ];
                    assert(strokes@ =~= show_strokes(self.tuning));
                    HideTestAction::Type(strokes)
                } else {
                    HideTestAction::Pause(self.tuning.key_event_delay_ms)
                }
            },
            HideTestEvent::Rested => {
                if (now as u128) < self.deadline {
                    HideTestAction::ReadPosition
                } else {
                    self.clean(HideTestResult::NotMoved)
                }
            },
            _ => HideTestAction::Pause(self.tuning.key_event_delay_ms),
        }
    }

    fn on_returning(&mut self, event: HideTestEvent, now: u64) -> (r: HideTestAction)
        requires
            old(self).valid(),
            old(self).stage is Returning,
        ensures
            final(self).valid(),
            final(self).same_setup(old(self)),
            hide_test_answer(*old(self), event, now, *final(self), r),
    {
        match event {
            HideTestEvent::Failed(e) => {
                self.stage = HideTestStage::Over;
                HideTestAction::Finish(Err(e))
            },
            HideTestEvent::Frame(Some(frame)) => {
                if moved_back(frame, self.start) {
                    self.clean(HideTestResult::Passed)
                } else {
                    HideTestAction::Pause(self.tuning.restore_poll_ms)
                }
            },
            HideTestEvent::Rested => {
                if (now as u128) < self.deadline {
                    HideTestAction::ReadFrame
                } else {
                    self.clean(HideTestResult::NotRestored)
                }
            },
            _ => HideTestAction::Pause(self.tuning.restore_poll_ms),
        }
    }

    /// Take in what came of a step.
    pub fn next(&mut self, event: HideTestEvent, now: u64) -> (r: HideTestAction)
        requires
            old(self).valid(),
        ensures
            final(self).valid(),
            final(self).same_setup(old(self)),
            hide_test_answer(*old(self), event, now, *final(self), r),
    {
        match self.stage {
            HideTestStage::Appearing => self.on_appearing(event, now),
            HideTestStage::Activating | HideTestStage::Measuring | HideTestStage::Aiming => {
                self.on_measures(event, now)
            },
            HideTestStage::Hiding | HideTestStage::Showing => self.on_typed(event, now),
            HideTestStage::Moving => self.on_moving(event, now),
            HideTestStage::Returning => self.on_returning(event, now),
            HideTestStage::Cleaning(result) => {
                self.stage = HideTestStage::Over;
                match result {
                    HideTestResult::Passed => HideTestAction::Finish(Ok(())),
                    HideTestResult::NotMoved => HideTestAction::Finish(
                        Err(
                            Error::SpawnFailed(
                                "window position did not change after hide(on)".to_owned(),
                            ),
                        ),
                    ),
                    HideTestResult::NotRestored => HideTestAction::Finish(
                        Err(
                            Error::SpawnFailed(
                                "window did not restore to original frame after hide(off)".to_owned(),
                            ),
                        ),
                    ),
                }
            },
            HideTestStage::Over => HideTestAction::Finish(Ok(())),
        }
    }
}

/// Whether an action ends the test because the window did not appear.
pub open spec fn not_visible(run: HideTest, action: HideTestAction) -> bool {
    action matches HideTestAction::Finish(Err(Error::FocusNotObserved { timeout_ms, expected }))
        && timeout_ms == run.timeout_ms && expected@ == "helper window '"@ + run.title@
        + "' not visible"@
}

/// Whether an action ends the test because the window could not be measured.
pub open spec fn not_measured(run: HideTest, action: HideTestAction, what: Seq<char>) -> bool {
    action matches HideTestAction::Finish(Err(Error::FocusNotObserved { timeout_ms, expected }))
        && timeout_ms == run.timeout_ms && expected@ == what
}

/// Whether an action ends the test with this complaint.
pub open spec fn gave_up(action: HideTestAction, why: Seq<char>) -> bool {
    action matches HideTestAction::Finish(Err(Error::SpawnFailed(text))) && text@ == why
}

/// Whether an event is answered as it has to be.
pub open spec fn hide_test_answer(
    before: HideTest,
    event: HideTestEvent,
    now: u64,
    after: HideTest,
    action: HideTestAction,
) -> bool {
    match (before.stage, event) {
        (HideTestStage::Over, _) => after == before && action == HideTestAction::Finish(Ok(())),
        (HideTestStage::Cleaning(result), _) => after.stage is Over && match result {
            HideTestResult::Passed => action == HideTestAction::Finish(Ok(())),
            HideTestResult::NotMoved => gave_up(
                action,
                "window position did not change after hide(on)"@,
            ),
            HideTestResult::NotRestored => gave_up(
                action,
                "window did not restore to original frame after hide(off)"@,
            ),
        },
        (_, HideTestEvent::Failed(e)) => after.stage is Over && action == HideTestAction::Finish(
            Err(e),
        ),
        (HideTestStage::Appearing, HideTestEvent::Answer(ready)) => if ready {
            after.stage is Activating && after.same_measures(&before) && action
                == HideTestAction::StartSession(before.timeout_ms)
        } else {
            after == before && action == HideTestAction::Pause(before.tuning.key_event_delay_ms)
        },
        (HideTestStage::Appearing, HideTestEvent::Rested) => if now < before.deadline {
            after == before && action is LookForWindow
        } else {
            after.stage is Over && not_visible(before, action)
        },
        (HideTestStage::Appearing, _) => after == before && action is LookForWindow,
        (HideTestStage::Activating, HideTestEvent::Answer(up)) => if up {
            after.stage is Measuring && after.same_measures(&before) && action is MeasureWindow
        } else {
            after.stage is Over && action == HideTestAction::Finish(
                Err(Error::HudNotVisible { timeout_ms: before.timeout_ms }),
            )
        },
        (HideTestStage::Activating, _) => after == before && action == HideTestAction::StartSession(
            before.timeout_ms,
        ),
        (HideTestStage::Measuring, HideTestEvent::NoWindow) => after.stage is Over && not_measured(
            before,
            action,
            "AX window for helper"@,
        ),
        (HideTestStage::Measuring, HideTestEvent::Frame(None)) => after.stage is Over
            && not_measured(before, action, "AX frame for helper window"@),
        (HideTestStage::Measuring, HideTestEvent::Frame(Some(frame))) => after.stage is Aiming
            && after.start == frame && action is MeasureScreen,
        (HideTestStage::Measuring, _) => after == before && action is MeasureWindow,
        (HideTestStage::Aiming, HideTestEvent::Screen(visible)) => {
            &&& after.stage is Hiding
            &&& after.start == before.start
            &&& after.target == target_left(
                before.start,
                visible,
                before.tuning.position_offset_pts,
            )
            &&& action matches HideTestAction::Type(strokes)
            &&& strokes@ == hide_strokes(before.tuning)
        },
        (HideTestStage::Aiming, _) => after == before && action is MeasureScreen,
        (HideTestStage::Hiding, _) => {
            &&& after.same_measures(&before)
            &&& after.deadline == now + before.move_ms() * NANOS_PER_MS
            &&& if before.move_ms() > 0 {
                after.stage is Moving && action is ReadPosition
            } else {
                after.stage == HideTestStage::Cleaning(HideTestResult::NotMoved)
                    && action is EndSession
            }
        },
        (HideTestStage::Moving, HideTestEvent::Position(Some(left))) => if has_moved(
            left,
            before.start,
            before.target as int,
        ) {
            &&& after.stage is Showing
            &&& after.same_measures(&before)
            &&& action matches HideTestAction::Type(strokes)
            &&& strokes@ == show_strokes(before.tuning)
        } else {
            after == before && action == HideTestAction::Pause(before.tuning.key_event_delay_ms)
        },
        (HideTestStage::Moving, HideTestEvent::Rested) => after.same_measures(&before) && if now
            < before.deadline {
            after == before && action is ReadPosition
        } else {
            after.stage == HideTestStage::Cleaning(HideTestResult::NotMoved) && action is EndSession
        },
        (HideTestStage::Moving, _) => after == before && action == HideTestAction::Pause(
            before.tuning.key_event_delay_ms,
        ),
        (HideTestStage::Showing, _) => {
            &&& after.same_measures(&before)
            &&& after.deadline == now + before.return_ms() * NANOS_PER_MS
            &&& if before.return_ms() > 0 {
                after.stage is Returning && action is ReadFrame
            } else {
                after.stage == HideTestStage::Cleaning(HideTestResult::NotRestored)
                    && action is EndSession
            }
        },
        (HideTestStage::Returning, HideTestEvent::Frame(Some(frame))) => if is_back(
            frame,
            before.start,
        ) {
            after.stage == HideTestStage::Cleaning(HideTestResult::Passed) && after.same_measures(
                &before,
            ) && action is EndSession
        } else {
            after == before && action == HideTestAction::Pause(before.tuning.restore_poll_ms)
        },
        (HideTestStage::Returning, HideTestEvent::Rested) => after.same_measures(&before) && if now
            < before.deadline {
            after == before && action is ReadFrame
        } else {
            after.stage == HideTestStage::Cleaning(HideTestResult::NotRestored)
                && action is EndSession
        },
        (HideTestStage::Returning, _) => after == before && action == HideTestAction::Pause(
            before.tuning.restore_poll_ms,
        ),
    }
}

/// The test passes only after the window was seen back in its place.
pub proof fn passing_means_the_window_came_back(
    before: HideTest,
    event: HideTestEvent,
    now: u64,
    after: HideTest,
    action: HideTestAction,
)
    requires
        hide_test_answer(before, event, now, after, action),
        after.stage == HideTestStage::Cleaning(HideTestResult::Passed),
        before.stage !is Cleaning,
    ensures
        before.stage is Returning,
        event matches HideTestEvent::Frame(Some(frame)) && is_back(frame, before.start),
{
}

/// Showing is typed only after the window was seen to move.
pub proof fn showing_follows_a_movement(
    before: HideTest,
    event: HideTestEvent,
    now: u64,
    after: HideTest,
    action: HideTestAction,
)
    requires
        hide_test_answer(before, event, now, after, action),
        after.stage is Showing,
        before.stage !is Showing,
    ensures
        before.stage is Moving,
        event matches HideTestEvent::Position(Some(left)) && has_moved(
            left,
            before.start,
            before.target as int,
        ),
{
}

/// A window that stays where it was, and is not expected there, has not moved.
pub proof fn staying_is_not_moving(start: Rect, target: int)
    requires
        !near(start.x as int, target, points(6)),
    ensures
        !has_moved(start.x, start, target),
{
}

} // verus!
