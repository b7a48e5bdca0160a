//! The fullscreen case: a helper window is toggled to fill the screen.

use vstd::prelude::*;
use vstd::string::*;

use crate::geom::{Rect, COORD_LIMIT};
use crate::smoketest::config::{ms, NANOS_PER_MS};
use crate::smoketest::error::{is_invalid, Error};
use crate::text::{dec, decimal, texts};

verus! {

/// The config of the case, which raises the window with a title.
pub open spec fn fullscreen_config_text(title: Seq<char>) -> Seq<char> {
    "(\n        keys: [\n            (\"g\", \"raise\", raise(title: \""@ + title
        + "\"), (noexit: true)),\n            (\"shift+cmd+9\", \"Fullscreen\", fullscreen(toggle) , (global: true)),\n        ],\n        style: (hud: (mode: hide)),\n        server: (exit_if_no_clients: true),\n    )"@
}

/// The config of the case, which raises the window with a title.
pub fn build_fullscreen_config(title: &str) -> (r: String)
    ensures
        r@ == fullscreen_config_text(title@),
{
    let mut s = "(\n        keys: [\n            (\"g\", \"raise\", raise(title: \"".to_owned();
    s.append(title);
    s.append(
        "\"), (noexit: true)),\n            (\"shift+cmd+9\", \"Fullscreen\", fullscreen(toggle) , (global: true)),\n        ],\n        style: (hud: (mode: hide)),\n        server: (exit_if_no_clients: true),\n    )",
    );
    s
}

/// Timing of the case, in milliseconds.
#[derive(Debug, Clone, Copy, PartialEq, Eq, Structural)]
pub struct FullscreenTuning {
    /// How long a helper lives.
    pub helper_lifetime_ms: u64,
    /// How much longer it lives to be safe.
    pub helper_extra_ms: u64,
    /// How long a first window may take.
    pub first_window_max_ms: u64,
    /// Pause between looks for the window.
    pub helper_show_delay_ms: u64,
    /// Pause between attempts to raise it.
    pub ui_action_delay_ms: u64,
    /// How long the toggle may take.
    pub wait_total_ms: u64,
    /// Pause between looks for the frame.
    pub wait_poll_ms: u64,
}

/// A sum that stays at its largest value.
pub open spec fn capped_sum(a: u64, b: u64) -> u64 {
    if a + b > u64::MAX {
        u64::MAX
    } else {
        (a + b) as u64
    }
}

impl FullscreenTuning {
    /// How long the helper lives.
    pub open spec fn lifetime(self) -> u64 {
        capped_sum(self.helper_lifetime_ms, self.helper_extra_ms)
    }

    /// How long the helper's window may take to appear.
    pub open spec fn visible_timeout(self) -> u64 {
        if self.first_window_max_ms * 3 > u64::MAX {
            u64::MAX
        } else if self.first_window_max_ms * 3 < 5_000 {
            5_000
        } else {
            (self.first_window_max_ms * 3) as u64
        }
    }

    /// How long the helper's window may take to appear.
    pub fn visible_timeout_ms(self) -> (r: u64)
        ensures
            r == self.visible_timeout(),
    {
        let triple: u64 = if self.first_window_max_ms > u64::MAX / 3 {
            u64::MAX
        } else {
            self.first_window_max_ms * 3
        };
        if triple < 5_000 {
            5_000
        } else {
            triple
        }
    }
}

/// Arguments of the helper.
pub open spec fn helper_args_spec(title: Seq<char>, lifetime_ms: u64) -> Seq<Seq<char>> {
    seq![
        "focus-winhelper"@,
        "--title"@,
        title,
        "--time"@,
        dec(lifetime_ms as nat),
        "--label-text"@,
        "FS"@,
    ]
}

/// Arguments of the helper.
pub fn fullscreen_helper_args(title: &str, tuning: FullscreenTuning) -> (r: Vec<String>)
    ensures
        texts(r@) == helper_args_spec(title@, tuning.lifetime()),
{
    let lifetime: u64 = match tuning.helper_lifetime_ms.checked_add(tuning.helper_extra_ms) {
        Some(n) => n,
        None => u64::MAX,
    };
    let r = vec![
        "focus-winhelper".to_owned(),
        "--title".to_owned(),
        title.to_owned(),
        "--time".to_owned(),
        decimal(lifetime),
        "--label-text".to_owned(),
        "FS".to_owned(),
    ];
    assert(texts(r@) =~= helper_args_spec(title@, tuning.lifetime()));
    r
}

/// How much larger a window has become, in square units.
pub fn area_delta(before: Rect, after: Rect) -> (r: i128)
    requires
        before.sized(),
        after.sized(),
    ensures
        r == after.w * after.h - before.w * before.h,
{
    proof {
        product_is_bounded(before.w as int, before.h as int);
        product_is_bounded(after.w as int, after.h as int);
    }
    let now: i128 = after.w as i128 * after.h as i128;
    let earlier: i128 = before.w as i128 * before.h as i128;
    now - earlier
}

proof fn product_is_bounded(a: int, b: int)
    requires
        -COORD_LIMIT <= a <= COORD_LIMIT,
        -COORD_LIMIT <= b <= COORD_LIMIT,
    ensures
        -COORD_LIMIT * COORD_LIMIT <= a * b <= COORD_LIMIT * COORD_LIMIT,
{
    assert(-COORD_LIMIT * COORD_LIMIT <= a * b <= COORD_LIMIT * COORD_LIMIT) by (nonlinear_arith)
        requires
            -COORD_LIMIT <= a <= COORD_LIMIT,
            -COORD_LIMIT <= b <= COORD_LIMIT,
    ;
}

/// How far the case has come.
#[derive(Debug, Clone, Copy, PartialEq, Eq, Structural)]
pub enum FullscreenStage {
    /// The driver gets ready.
    Readying,
    /// The bindings are awaited.
    Binding,
    /// The helper is started.
    Spawning,
    /// Its window is awaited.
    Appearing,
    /// Its window is brought to the front.
    Fronting,
    /// Its window is brought to the front by other means.
    Raising,
    /// The focus is guarded.
    Guarding,
    /// The window is raised by its key.
    PressingRaise,
    /// The focus is asserted.
    Asserting,
    /// The frame is read.
    Measuring,
    /// The toggle is pressed.
    Toggling,
    /// The frame is read again.
    Watching,
    /// The server is probed.
    Probing,
    /// A pause.
    Pausing,
    /// The focus is asserted again.
    Reasserting,
    /// The helper is ended.
    Ending,
    /// The session is ended.
    Settling,
    /// The case is over.
    Over,
}

/// What was learned in the case.
#[derive(Debug)]
pub enum FullscreenEvent {
    /// The step is done.
    Done,
    /// The step has failed.
    Failed(Error),
    /// Whether the window, or the server, answers.
    Answer(bool),
    /// The frame of the window.
    Frame(Option<Rect>),
}

/// What to do in the case.
#[derive(Debug)]
pub enum FullscreenAction {
    /// Wait until the driver is ready, in milliseconds.
    EnsureInit(u64),
    /// Wait for the keys `g` and `shift+cmd+9`, in milliseconds.
    AwaitBindings(u64),
    /// Start the helper.
    SpawnHelper,
    /// Wait for its window: allowance and pause in milliseconds.
    AwaitWindow(u64, u64),
    /// Bring its window to the front: attempts, and pause in milliseconds.
    EnsureFrontmost(u32, u64),
    /// Bring its window to the front by its title: attempts, and pause in milliseconds.
    RaiseByTitle(u32, u64),
    /// Guard its focus.
    AcquireGuard,
    /// Press a key.
    Press(&'static str),
    /// Assert the focus.
    Reassert,
    /// Read the frame.
    ReadFrame,
    /// Probe the server.
    CheckAlive,
    /// Pause for milliseconds.
    Pause(u64),
    /// End the helper.
    KillHelper,
    /// Log both frames and end the session.
    Settle(Rect, Rect),
    /// The case is over.
    Finish(Result<(), Error>),
}

/// A run of the case.
#[derive(Debug)]
pub struct FullscreenRun {
    /// Title of the helper's window.
    pub title: String,
    /// Timing.
    pub tuning: FullscreenTuning,
    /// When the toggle has to be done.
    pub deadline: u128,
    /// The frame before the toggle.
    pub before: Option<Rect>,
    /// The frame after the toggle.
    pub after: Option<Rect>,
    /// How far the case has come.
    pub stage: FullscreenStage,
}

/// What an event comes to.
pub enum FullscreenVerdict {
    /// Go on with a stage.
    To(FullscreenStage),
    /// The case fails as the step has.
    Broken,
    /// The window did not appear.
    NotVisible,
    /// The state is not valid.
    Invalid(Seq<char>),
    /// The server is gone.
    Gone,
    /// The event is no answer to the step.
    Again,
}

impl FullscreenRun {
    /// What an event comes to at a moment.
    pub open spec fn verdict(&self, event: FullscreenEvent, now: u64) -> FullscreenVerdict {
        match event {
            FullscreenEvent::Failed(_) => match self.stage {
                FullscreenStage::Fronting => FullscreenVerdict::To(FullscreenStage::Raising),
                FullscreenStage::Over => FullscreenVerdict::Again,
                _ => FullscreenVerdict::Broken,
            },
            FullscreenEvent::Done => match self.stage {
                FullscreenStage::Readying => FullscreenVerdict::To(FullscreenStage::Binding),
                FullscreenStage::Binding => FullscreenVerdict::To(FullscreenStage::Spawning),
                FullscreenStage::Spawning => FullscreenVerdict::To(FullscreenStage::Appearing),
                FullscreenStage::Fronting => FullscreenVerdict::To(FullscreenStage::Guarding),
                FullscreenStage::Guarding => FullscreenVerdict::To(FullscreenStage::PressingRaise),
                FullscreenStage::PressingRaise => FullscreenVerdict::To(FullscreenStage::Asserting),
                FullscreenStage::Asserting => FullscreenVerdict::To(FullscreenStage::Measuring),
                FullscreenStage::Toggling => FullscreenVerdict::To(FullscreenStage::Watching),
                FullscreenStage::Pausing => FullscreenVerdict::To(FullscreenStage::Watching),
                FullscreenStage::Reasserting => FullscreenVerdict::To(FullscreenStage::Ending),
                FullscreenStage::Ending => if self.before is None {
                    FullscreenVerdict::Invalid("missing before frame"@)
                } else if self.after is None {
                    FullscreenVerdict::Invalid("missing after frame"@)
                } else {
                    FullscreenVerdict::To(FullscreenStage::Settling)
                },
                FullscreenStage::Settling => FullscreenVerdict::To(FullscreenStage::Over),
                _ => FullscreenVerdict::Again,
            },
            FullscreenEvent::Answer(yes) => match self.stage {
                FullscreenStage::Appearing => if yes {
                    FullscreenVerdict::To(FullscreenStage::Fronting)
                } else {
                    FullscreenVerdict::NotVisible
                },
                FullscreenStage::Raising => FullscreenVerdict::To(FullscreenStage::Guarding),
                FullscreenStage::Probing => if yes {
                    FullscreenVerdict::To(FullscreenStage::Pausing)
                } else {
                    FullscreenVerdict::Gone
                },
                _ => FullscreenVerdict::Again,
            },
            FullscreenEvent::Frame(frame) => match (self.stage, frame) {
                (FullscreenStage::Measuring, Some(_)) => FullscreenVerdict::To(
                    FullscreenStage::Toggling,
                ),
                (FullscreenStage::Measuring, None) => FullscreenVerdict::Invalid(
                    "failed to read initial window frame"@,
                ),
                (FullscreenStage::Watching, Some(_)) => FullscreenVerdict::To(
                    FullscreenStage::Reasserting,
                ),
                (FullscreenStage::Watching, None) => if now >= self.deadline {
                    FullscreenVerdict::Invalid(
                        "failed to read window frame after fullscreen toggle"@,
                    )
                } else {
                    FullscreenVerdict::To(FullscreenStage::Probing)
                },
                _ => FullscreenVerdict::Again,
            },
        }
    }

    /// The action of the stage.
    pub open spec fn action(&self) -> FullscreenAction {
        match self.stage {
            FullscreenStage::Readying => FullscreenAction::EnsureInit(5_000),
            FullscreenStage::Binding => FullscreenAction::AwaitBindings(4_000),
            FullscreenStage::Spawning => FullscreenAction::SpawnHelper,
            FullscreenStage::Appearing => FullscreenAction::AwaitWindow(
                self.tuning.visible_timeout(),
                self.tuning.helper_show_delay_ms,
            ),
            FullscreenStage::Fronting => FullscreenAction::EnsureFrontmost(
                3,
                self.tuning.ui_action_delay_ms,
            ),
            FullscreenStage::Raising => FullscreenAction::RaiseByTitle(
                3,
                self.tuning.ui_action_delay_ms,
            ),
            FullscreenStage::Guarding => FullscreenAction::AcquireGuard,
            FullscreenStage::PressingRaise => FullscreenAction::Press("g"),
            FullscreenStage::Asserting => FullscreenAction::Reassert,
            FullscreenStage::Measuring => FullscreenAction::ReadFrame,
            FullscreenStage::Toggling => FullscreenAction::Press("shift+cmd+9"),
            FullscreenStage::Watching => FullscreenAction::ReadFrame,
            FullscreenStage::Probing => FullscreenAction::CheckAlive,
            FullscreenStage::Pausing => FullscreenAction::Pause(self.tuning.wait_poll_ms),
            FullscreenStage::Reasserting => FullscreenAction::Reassert,
            FullscreenStage::Ending => FullscreenAction::KillHelper,
            FullscreenStage::Settling => match (self.before, self.after) {
                (Some(b), Some(a)) => FullscreenAction::Settle(b, a),
                _ => FullscreenAction::Finish(Ok(())),
            },
            FullscreenStage::Over => FullscreenAction::Finish(Ok(())),
        }
    }

    fn act(&self) -> (r: FullscreenAction)
        ensures
            r == self.action(),
    {
        match self.stage {
            FullscreenStage::Readying => FullscreenAction::EnsureInit(5_000),
            FullscreenStage::Binding => FullscreenAction::AwaitBindings(4_000),
            FullscreenStage::Spawning => FullscreenAction::SpawnHelper,
            FullscreenStage::Appearing => FullscreenAction::AwaitWindow(
                self.tuning.visible_timeout_ms(),
                self.tuning.helper_show_delay_ms,
            ),
            FullscreenStage::Fronting => FullscreenAction::EnsureFrontmost(
                3,
                self.tuning.ui_action_delay_ms,
            ),
            FullscreenStage::Raising => FullscreenAction::RaiseByTitle(
                3,
                self.tuning.ui_action_delay_ms,
            ),
            FullscreenStage::Guarding => FullscreenAction::AcquireGuard,
            FullscreenStage::PressingRaise => FullscreenAction::Press("g"),
            FullscreenStage::Asserting => FullscreenAction::Reassert,
            FullscreenStage::Measuring => FullscreenAction::ReadFrame,
            FullscreenStage::Toggling => FullscreenAction::Press("shift+cmd+9"),
            FullscreenStage::Watching => FullscreenAction::ReadFrame,
            FullscreenStage::Probing => FullscreenAction::CheckAlive,
            FullscreenStage::Pausing => FullscreenAction::Pause(self.tuning.wait_poll_ms),
            FullscreenStage::Reasserting => FullscreenAction::Reassert,
            FullscreenStage::Ending => FullscreenAction::KillHelper,
            FullscreenStage::Settling => match (self.before, self.after) {
                (Some(b), Some(a)) => FullscreenAction::Settle(b, a),
                _ => FullscreenAction::Finish(Ok(())),
            },
            FullscreenStage::Over => FullscreenAction::Finish(Ok(())),
        }
    }

    /// Begin the case, once the session is started with the config.
    pub fn fullscreen_toggle_nonnative(title: String, tuning: FullscreenTuning) -> (r: (
        Self,
        FullscreenAction,
    ))
        ensures
            r.0 == (FullscreenRun {
                title,
                tuning,
                deadline: 0,
                before: None,
                after: None,
                stage: FullscreenStage::Readying,
            }),
            r.1 == FullscreenAction::EnsureInit(5_000),
    {
        (
            FullscreenRun {
                title,
                tuning,
                deadline: 0,
                before: None,
                after: None,
                stage: FullscreenStage::Readying,
            },
            FullscreenAction::EnsureInit(5_000),
        )
    }

    /// The run after an event has brought it to a stage.
    pub open spec fn moved(self, event: FullscreenEvent, stage: FullscreenStage, now: u64) -> FullscreenRun {
        FullscreenRun {
            title: self.title,
            tuning: self.tuning,
            deadline: if self.stage is Toggling {
                (now + self.tuning.wait_total_ms * NANOS_PER_MS) as u128
            } else {
                self.deadline
            },
            before: if self.stage is Measuring {
                event->Frame_0
            } else {
                self.before
            },
            after: if stage is Reasserting {
                event->Frame_0
            } else {
                self.after
            },
            stage,
        }
    }

    fn not_visible(&self) -> (r: Error)
        ensures
            r matches Error::FocusNotObserved { timeout_ms, expected } && timeout_ms
                == self.tuning.visible_timeout() && expected@ == "helper window '"@ + self.title@
                + "' not visible"@,
    {
        let mut s = "helper window '".to_owned();
        s.append(self.title.as_str());
        s.append("' not visible");
        Error::FocusNotObserved { timeout_ms: self.tuning.visible_timeout_ms(), expected: s }
    }

    fn take(&mut self, stage: FullscreenStage) -> (r: FullscreenAction)
        ensures
            *final(self) == (FullscreenRun { stage, ..*old(self) }),
            r == final(self).action(),
    {
        self.stage = stage;
        self.act()
    }

    fn end(&mut self, e: Error) -> (r: FullscreenAction)
        ensures
            *final(self) == (FullscreenRun { stage: FullscreenStage::Over, ..*old(self) }),
            r == FullscreenAction::Finish(Err(e)),
    {
        self.stage = FullscreenStage::Over;
        FullscreenAction::Finish(Err(e))
    }

    /// Take in what came of a step.
    pub fn next(&mut self, event: FullscreenEvent, now: u64) -> (r: FullscreenAction)
        ensures
            match old(self).verdict(event, now) {
                FullscreenVerdict::To(stage) => *final(self) == old(self).moved(event, stage, now)
                    && r == final(self).action(),
                FullscreenVerdict::Broken => final(self).stage is Over && r
                    == FullscreenAction::Finish(Err(event->Failed_0)),
                FullscreenVerdict::NotVisible => final(self).stage is Over && (
                r matches FullscreenAction::Finish(Err(Error::FocusNotObserved {
                    timeout_ms,
                    expected,
                })) && timeout_ms == old(self).tuning.visible_timeout() && expected@
                    == "helper window '"@ + old(self).title@ + "' not visible"@),
                FullscreenVerdict::Invalid(why) => final(self).stage is Over && (
                r matches FullscreenAction::Finish(Err(e)) && is_invalid(e, why)),
                FullscreenVerdict::Gone => final(self).stage is Over && (
                r matches FullscreenAction::Finish(Err(Error::IpcDisconnected { during }))
                    && during@ == "fullscreen toggle"@),
                FullscreenVerdict::Again => *final(self) == *old(self) && r == old(self).action(),
            },
    {
        match event {
            FullscreenEvent::Failed(e) => match self.stage {
                FullscreenStage::Fronting => self.take(FullscreenStage::Raising),
                FullscreenStage::Over => self.act(),
                _ => self.end(e),
            },
            FullscreenEvent::Done => match self.stage {
                FullscreenStage::Readying => self.take(FullscreenStage::Binding),
                FullscreenStage::Binding => self.take(FullscreenStage::Spawning),
                FullscreenStage::Spawning => self.take(FullscreenStage::Appearing),
                FullscreenStage::Fronting => self.take(FullscreenStage::Guarding),
                FullscreenStage::Guarding => self.take(FullscreenStage::PressingRaise),
                FullscreenStage::PressingRaise => self.take(FullscreenStage::Asserting),
                FullscreenStage::Asserting => self.take(FullscreenStage::Measuring),
                FullscreenStage::Toggling => {
                    self.deadline = now as u128 + ms(self.tuning.wait_total_ms);
                    self.take(FullscreenStage::Watching)
                },
                FullscreenStage::Pausing => self.take(FullscreenStage::Watching),
                FullscreenStage::Reasserting => self.take(FullscreenStage::Ending),
                FullscreenStage::Ending => {
                    if self.before.is_none() {
                        return self.end(Error::invalid("missing before frame"));
                    }
                    if self.after.is_none() {
                        return self.end(Error::invalid("missing after frame"));
                    }
                    self.take(FullscreenStage::Settling)
                },
                FullscreenStage::Settling => self.take(FullscreenStage::Over),
                _ => self.act(),
            },
            FullscreenEvent::Answer(yes) => match self.stage {
                FullscreenStage::Appearing => {
                    if yes {
                        self.take(FullscreenStage::Fronting)
                    } else {
                        let e = self.not_visible();
                        self.end(e)
                    }
                },
                FullscreenStage::Raising => self.take(FullscreenStage::Guarding),
                FullscreenStage::Probing => {
                    if yes {
                        self.take(FullscreenStage::Pausing)
                    } else {
                        self.end(Error::IpcDisconnected { during: "fullscreen toggle".to_owned() })
                    }
                },
                _ => self.act(),
            },
            FullscreenEvent::Frame(frame) => match self.stage {
                FullscreenStage::Measuring => {
                    if frame.is_none() {
                        return self.end(Error::invalid("failed to read initial window frame"));
                    }
                    self.before = frame;
                    self.take(FullscreenStage::Toggling)
                },
                FullscreenStage::Watching => {
                    if frame.is_some() {
                        self.after = frame;
                        return self.take(FullscreenStage::Reasserting);
                    }
                    if now as u128 >= self.deadline {
                        return self.end(
                            Error::invalid("failed to read window frame after fullscreen toggle"),
                        );
                    }
                    self.take(FullscreenStage::Probing)
                },
                _ => self.act(),
            },
        }
    }
}

/// Whether a run has measured what its stage needs: a frame before the toggle, and one
/// after it.
pub open spec fn fullscreen_sound(run: FullscreenRun) -> bool {
    &&& fullscreen_rank(run.stage) >= fullscreen_rank(FullscreenStage::Toggling)
        ==> run.before is Some
    &&& fullscreen_rank(run.stage) >= fullscreen_rank(FullscreenStage::Reasserting)
        ==> run.after is Some
}

/// How far a stage is.
pub open spec fn fullscreen_rank(stage: FullscreenStage) -> int {
    match stage {
        FullscreenStage::Readying => 0,
        FullscreenStage::Binding => 1,
        FullscreenStage::Spawning => 2,
        FullscreenStage::Appearing => 3,
        FullscreenStage::Fronting => 4,
        FullscreenStage::Raising => 5,
        FullscreenStage::Guarding => 6,
        FullscreenStage::PressingRaise => 7,
        FullscreenStage::Asserting => 8,
        FullscreenStage::Measuring => 9,
        FullscreenStage::Toggling => 10,
        FullscreenStage::Watching => 11,
        FullscreenStage::Probing => 11,
        FullscreenStage::Pausing => 11,
        FullscreenStage::Reasserting => 12,
        FullscreenStage::Ending => 13,
        FullscreenStage::Settling => 14,
        FullscreenStage::Over => 15,
    }
}

/// A case that goes on keeps both frames once it has them; so it never settles, or
/// ends well, without both.
pub proof fn both_frames_are_measured(run: FullscreenRun, event: FullscreenEvent, now: u64)
    requires
        fullscreen_sound(run),
        run.verdict(event, now) is To,
    ensures
        fullscreen_sound(run.moved(event, run.verdict(event, now)->To_0, now)),
        fullscreen_rank(run.verdict(event, now)->To_0) >= fullscreen_rank(run.stage),
{
}

/// Once the toggle is overdue, the next look without a frame ends the case.
pub proof fn an_overdue_toggle_fails(run: FullscreenRun, now: u64)
    requires
        run.stage is Watching,
        now >= run.deadline,
    ensures
        run.verdict(FullscreenEvent::Frame(None), now) is Invalid,
{
}

} // verus!
