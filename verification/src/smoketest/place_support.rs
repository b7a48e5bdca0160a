//! Starting the helper of a placement case, bringing it to the front and asking
//! for placements.

use vstd::prelude::*;
use vstd::string::*;

use crate::smoketest::case_plan::{deadline_for, scaled_deadline, RaiseStrategy};
use crate::smoketest::error::{fails_with, is_invalid, Error};
use crate::smoketest::frames::{wait_failure, wait_failure_text, RectPx};
use crate::text::{contains_text, dec_int, decimal_signed, occurs, replace_char, replaced};

verus! {

/// A window as the world service reports it.
#[derive(Debug)]
pub struct WorldWin {
    /// Process of the window.
    pub pid: i32,
    /// Identifier of the window.
    pub id: u32,
    /// Title of the window.
    pub title: String,
    /// Whether the window is on screen.
    pub is_on_screen: bool,
}

impl Clone for WorldWin {
    fn clone(&self) -> (r: Self)
        ensures
            r == *self,
    {
        WorldWin {
            pid: self.pid,
            id: self.id,
            title: self.title.clone(),
            is_on_screen: self.is_on_screen,
        }
    }
}

/// Identifier and process of a listed window.
#[derive(Debug, Clone, Copy, PartialEq, Eq, Structural)]
pub struct ListedWin {
    /// Identifier of the window.
    pub id: u32,
    /// Process of the window.
    pub pid: i32,
}

/// The name of a file that belongs to a case.
pub open spec fn artifact_name(slug: Seq<char>, suffix: Seq<char>) -> Seq<char> {
    replaced(slug, '.', "_"@) + suffix
}

/// The name of a file that belongs to a case.
pub fn artifact_file(slug: &str, suffix: &str) -> (s: String)
    ensures
        s@ == artifact_name(slug@, suffix@),
{
    let mut s = replace_char(slug, '.', "_");
    s.append(suffix);
    s
}

/// The mark by which the window of a label is found in titles.
pub open spec fn title_marker(slug: Seq<char>, label: Seq<char>) -> Seq<char> {
    "["@ + slug + "::"@ + label + "]"@
}

/// The mark by which the window of a label is found in titles.
pub fn marker(slug: &str, label: &str) -> (s: String)
    ensures
        s@ == title_marker(slug@, label@),
{
    let mut s = "[".to_owned();
    s.append(slug);
    s.append("::");
    s.append(label);
    s.append("]");
    s
}

/// The note of an expected rectangle.
pub open spec fn expected_note(rect: RectPx) -> Seq<char> {
    "expected=RectPx { x: "@ + dec_int(rect.x as int) + ", y: "@ + dec_int(rect.y as int) + ", w: "@
        + dec_int(rect.w as int) + ", h: "@ + dec_int(rect.h as int) + " }\n"@
}

/// The note of an expected rectangle.
pub fn rewrite_expected_artifact(rect: RectPx) -> (s: String)
    ensures
        s@ == expected_note(rect),
{
    let mut s = "expected=RectPx { x: ".to_owned();
    s.append(decimal_signed(rect.x as i64).as_str());
    s.append(", y: ");
    s.append(decimal_signed(rect.y as i64).as_str());
    s.append(", w: ");
    s.append(decimal_signed(rect.w as i64).as_str());
    s.append(", h: ");
    s.append(decimal_signed(rect.h as i64).as_str());
    s.append(" }\n");
    s
}

/// How far the start of a helper has come.
#[derive(Debug)]
pub enum SpawnStage {
    /// The helper is being started.
    Spawning,
    /// Its window is awaited.
    Awaiting,
    /// Its window has to come on screen.
    Readying(WorldWin),
    /// Its window is raised.
    Raising(WorldWin),
    /// The windows are listed.
    Listing(WorldWin),
    /// Its process is activated.
    Activating(WorldWin, i32),
    /// The expected rectangle is written down.
    Writing(WorldWin, i32),
    /// Its window has to be visible.
    Showing(WorldWin, i32),
    /// The window is found.
    Found(WorldWin, i32),
    /// The start has failed.
    Lost,
}

/// What was learned about the helper.
#[derive(Debug)]
pub enum SpawnEvent {
    /// The step is done.
    Done,
    /// The step has failed.
    Failed(String),
    /// The step could not be carried out at all.
    Broken(Error),
    /// A window was found.
    Window(WorldWin),
    /// The windows.
    Listed(Vec<ListedWin>),
}

/// The window that a placement case works on.
#[derive(Debug)]
pub struct PlaceTarget {
    /// Process of the window.
    pub pid: i32,
    /// Identifier of the window.
    pub id: u32,
    /// Title of the window.
    pub title: String,
}

/// What to do to start the helper.
#[derive(Debug)]
pub enum SpawnAction {
    /// Start the helper.
    SpawnHelper,
    /// Wait for a window with this mark in its title.
    AwaitWindow(String),
    /// Wait until the window is on screen.
    AwaitOnScreen(i32, u32),
    /// Raise the window, within an allowance in milliseconds.
    RaiseWindow {
        /// Process of the window.
        pid: i32,
        /// Identifier of the window.
        id: u32,
        /// Title of the window.
        title: String,
        /// Allowance in milliseconds.
        deadline_ms: u64,
    },
    /// List the windows.
    ListWindows,
    /// Activate a process.
    Activate(i32),
    /// Write a file.
    WriteFile {
        /// Name of the file.
        file: String,
        /// What it holds.
        contents: String,
    },
    /// Wait until the window is visible, within an allowance in milliseconds.
    AwaitVisible {
        /// Process of the window.
        owner: i32,
        /// Identifier of the window.
        window: u32,
        /// Allowance in milliseconds.
        total_ms: u64,
    },
    /// The window is ready.
    Ready(PlaceTarget),
    /// The start has failed.
    Fail(Error),
}

/// How long the first look at the window may take, in milliseconds.
pub const WARMUP_MS: u64 = 1_200;

/// The process of a window according to the listing, or the one already known.
pub open spec fn listed_pid(windows: Seq<ListedWin>, id: u32, known: i32) -> i32
    decreases windows.len(),
{
    if windows.len() == 0 {
        known
    } else if windows[0].id == id {
        windows[0].pid
    } else {
        listed_pid(windows.drop_first(), id, known)
    }
}

/// The process of a window according to the listing, or the one already known.
pub fn resolve_pid(windows: &Vec<ListedWin>, id: u32, known: i32) -> (r: i32)
    ensures
        r == listed_pid(windows@, id, known),
{
    let mut i: usize = 0;
    assert(windows@.skip(0) =~= windows@);
    while i < windows.len()
        invariant
            i <= windows@.len(),
            listed_pid(windows@.skip(i as int), id, known) == listed_pid(windows@, id, known),
        decreases windows@.len() - i,
    {
        assert(windows@.skip(i as int)[0] == windows@[i as int]);
        if windows[i].id == id {
            return windows[i].pid;
        }
        assert(windows@.skip(i as int).drop_first() =~= windows@.skip(i + 1));
        i = i + 1;
    }
    known
}

/// The stage after an event.
pub open spec fn stage_after(stage: SpawnStage, event: SpawnEvent) -> SpawnStage {
    match stage {
        SpawnStage::Spawning => match event {
            SpawnEvent::Failed(_) | SpawnEvent::Broken(_) => SpawnStage::Lost,
            _ => SpawnStage::Awaiting,
        },
        SpawnStage::Awaiting => match event {
            SpawnEvent::Window(win) => if win.is_on_screen {
                SpawnStage::Raising(win)
            } else {
                SpawnStage::Readying(win)
            },
            _ => SpawnStage::Lost,
        },
        SpawnStage::Readying(win) => match event {
            SpawnEvent::Window(updated) => SpawnStage::Raising(updated),
            _ => SpawnStage::Raising(win),
        },
        SpawnStage::Raising(win) => SpawnStage::Listing(win),
        SpawnStage::Listing(win) => match event {
            SpawnEvent::Listed(windows) => SpawnStage::Activating(
                win,
                listed_pid(windows@, win.id, win.pid),
            ),
            _ => SpawnStage::Activating(win, win.pid),
        },
        SpawnStage::Activating(win, pid) => SpawnStage::Writing(win, pid),
        SpawnStage::Writing(win, pid) => match event {
            SpawnEvent::Failed(_) | SpawnEvent::Broken(_) => SpawnStage::Lost,
            _ => SpawnStage::Showing(win, pid),
        },
        SpawnStage::Showing(win, pid) => match event {
            SpawnEvent::Broken(_) => SpawnStage::Lost,
            _ => SpawnStage::Found(win, pid),
        },
        SpawnStage::Found(_, _) => stage,
        SpawnStage::Lost => stage,
    }
}

/// Whether an error is what a stage makes of an event.
pub open spec fn spawn_error(slug: Seq<char>, stage: SpawnStage, event: SpawnEvent, e: Error) -> bool {
    match event {
        SpawnEvent::Broken(inner) => e == inner,
        SpawnEvent::Failed(why) => match stage {
            SpawnStage::Spawning => is_invalid(
                e,
                "spawn mimic failed for "@ + slug + ": "@ + why@,
            ),
            SpawnStage::Writing(_, _) => e == Error::Io(why),
            _ => is_invalid(e, wait_failure_text(slug, why@)),
        },
        _ => is_invalid(e, wait_failure_text(slug, "window missing"@)),
    }
}

/// Starting the helper of a placement case.
#[derive(Debug)]
pub struct SpawnPlace {
    /// Name of the case in files and titles.
    pub slug: &'static str,
    /// Where the window is expected.
    pub expected: RectPx,
    /// Delay after a UI action in milliseconds.
    pub ui_action_delay_ms: u64,
    /// How far the start has come.
    pub stage: SpawnStage,
}

impl SpawnPlace {
    /// Whether an action is what a stage calls for; a lost start is reported on its
    /// own.
    pub open spec fn calls_for(&self, action: SpawnAction) -> bool {
        match self.stage {
            SpawnStage::Spawning => action is SpawnHelper,
            SpawnStage::Awaiting => action matches SpawnAction::AwaitWindow(m) && m@
                == title_marker(self.slug@, "primary"@),
            SpawnStage::Readying(win) => action == SpawnAction::AwaitOnScreen(win.pid, win.id),
            SpawnStage::Raising(win) => action == (SpawnAction::RaiseWindow {
                pid: win.pid,
                id: win.id,
                title: win.title,
                deadline_ms: scaled_deadline(self.ui_action_delay_ms, 12, 1_200),
            }),
            SpawnStage::Listing(_) => action is ListWindows,
            SpawnStage::Activating(_, pid) => action == SpawnAction::Activate(pid),
            SpawnStage::Writing(_, _) => action matches SpawnAction::WriteFile { file, contents }
                && file@ == artifact_name(self.slug@, "_expected.txt"@) && contents@
                == expected_note(self.expected),
            SpawnStage::Showing(win, pid) => action == (SpawnAction::AwaitVisible {
                owner: pid,
                window: win.id,
                total_ms: WARMUP_MS,
            }),
            SpawnStage::Found(win, pid) => action == SpawnAction::Ready(
                PlaceTarget { pid, id: win.id, title: win.title },
            ),
            SpawnStage::Lost => action is Fail,
        }
    }

    /// Start the helper of a case.
    pub fn spawn_place_state(slug: &'static str, expected: RectPx, ui_action_delay_ms: u64) -> (r: (
        Self,
        SpawnAction,
    ))
        ensures
            r.0 == (SpawnPlace {
                slug,
                expected,
                ui_action_delay_ms,
                stage: SpawnStage::Spawning,
            }),
            r.0.calls_for(r.1),
    {
        (
            SpawnPlace { slug, expected, ui_action_delay_ms, stage: SpawnStage::Spawning },
            SpawnAction::SpawnHelper,
        )
    }

    fn action(&self) -> (r: SpawnAction)
        requires
            !(self.stage is Lost),
        ensures
            self.calls_for(r),
    {
        match &self.stage {
            SpawnStage::Spawning => SpawnAction::SpawnHelper,
            SpawnStage::Awaiting => SpawnAction::AwaitWindow(marker(self.slug, "primary")),
            SpawnStage::Readying(win) => SpawnAction::AwaitOnScreen(win.pid, win.id),
            SpawnStage::Raising(win) => SpawnAction::RaiseWindow {
                pid: win.pid,
                id: win.id,
                title: win.title.clone(),
                deadline_ms: deadline_for(self.ui_action_delay_ms, 12, 1_200),
            },
            SpawnStage::Listing(_) => SpawnAction::ListWindows,
            SpawnStage::Activating(_, pid) => SpawnAction::Activate(*pid),
            SpawnStage::Writing(_, _) => SpawnAction::WriteFile {
                file: artifact_file(self.slug, "_expected.txt"),
                contents: rewrite_expected_artifact(self.expected),
            },
            SpawnStage::Showing(win, pid) => SpawnAction::AwaitVisible {
                owner: *pid,
                window: win.id,
                total_ms: WARMUP_MS,
            },
            SpawnStage::Found(win, pid) => SpawnAction::Ready(
                PlaceTarget { pid: *pid, id: win.id, title: win.title.clone() },
            ),
            SpawnStage::Lost => SpawnAction::Fail(Error::invalid("")),
        }
    }

    fn advance(&self, event: &SpawnEvent) -> (r: SpawnStage)
        ensures
            r == stage_after(self.stage, *event),
    {
        match &self.stage {
            SpawnStage::Spawning => match event {
                SpawnEvent::Failed(_) | SpawnEvent::Broken(_) => SpawnStage::Lost,
                _ => SpawnStage::Awaiting,
            },
            SpawnStage::Awaiting => match event {
                SpawnEvent::Window(win) => if win.is_on_screen {
                    SpawnStage::Raising(win.clone())
                } else {
                    SpawnStage::Readying(win.clone())
                },
                _ => SpawnStage::Lost,
            },
            SpawnStage::Readying(win) => match event {
                SpawnEvent::Window(updated) => SpawnStage::Raising(updated.clone()),
                _ => SpawnStage::Raising(win.clone()),
            },
            SpawnStage::Raising(win) => SpawnStage::Listing(win.clone()),
            SpawnStage::Listing(win) => match event {
                SpawnEvent::Listed(windows) => SpawnStage::Activating(
                    win.clone(),
                    resolve_pid(windows, win.id, win.pid),
                ),
                _ => SpawnStage::Activating(win.clone(), win.pid),
            },
            SpawnStage::Activating(win, pid) => SpawnStage::Writing(win.clone(), *pid),
            SpawnStage::Writing(win, pid) => match event {
                SpawnEvent::Failed(_) | SpawnEvent::Broken(_) => SpawnStage::Lost,
                _ => SpawnStage::Showing(win.clone(), *pid),
            },
            SpawnStage::Showing(win, pid) => match event {
                SpawnEvent::Broken(_) => SpawnStage::Lost,
                _ => SpawnStage::Found(win.clone(), *pid),
            },
            SpawnStage::Found(win, pid) => SpawnStage::Found(win.clone(), *pid),
            SpawnStage::Lost => SpawnStage::Lost,
        }
    }

    fn error_for(&self, event: SpawnEvent) -> (r: Error)
        ensures
            spawn_error(self.slug@, self.stage, event, r),
    {
        match event {
            SpawnEvent::Broken(inner) => inner,
            SpawnEvent::Failed(why) => match &self.stage {
                SpawnStage::Spawning => {
                    let mut s = "spawn mimic failed for ".to_owned();
                    s.append(self.slug);
                    s.append(": ");
                    s.append(why.as_str());
                    Error::InvalidState(s)
                },
                SpawnStage::Writing(_, _) => Error::Io(why),
                _ => wait_failure(self.slug, why.as_str()),
            },
            _ => wait_failure(self.slug, "window missing"),
        }
    }

    /// Take in what was learned, and say what to do next.
    pub fn next(&mut self, event: SpawnEvent) -> (r: SpawnAction)
        requires
            !(old(self).stage is Lost),
        ensures
            *final(self) == (SpawnPlace {
                stage: stage_after(old(self).stage, event),
                ..*old(self)
            }),
            final(self).calls_for(r),
            r matches SpawnAction::Fail(e) ==> spawn_error(
                old(self).slug@,
                old(self).stage,
                event,
                e,
            ),
    {
        let stage = self.advance(&event);
        match stage {
            SpawnStage::Lost => {
                let e = self.error_for(event);
                self.stage = SpawnStage::Lost;
                SpawnAction::Fail(e)
            },
            _ => {
                self.stage = stage;
                self.action()
            },
        }
    }
}

/// The window is addressed by the process that the listing gives, where it is
/// listed.
pub proof fn listed_windows_keep_their_process(windows: Seq<ListedWin>, id: u32, known: i32)
    ensures
        (forall|i: int| 0 <= i < windows.len() ==> (#[trigger] windows[i]).id != id) ==> listed_pid(
            windows,
            id,
            known,
        ) == known,
        (exists|i: int| 0 <= i < windows.len() && (#[trigger] windows[i]).id == id) ==> exists|
            i: int,
        |
            0 <= i < windows.len() && (#[trigger] windows[i]).id == id && windows[i].pid
                == listed_pid(windows, id, known),
    decreases windows.len(),
{
    if windows.len() > 0 && windows[0].id != id {
        let rest = windows.drop_first();
        listed_windows_keep_their_process(rest, id, known);
        if exists|i: int| 0 <= i < windows.len() && (#[trigger] windows[i]).id == id {
            let i = choose|i: int| 0 <= i < windows.len() && (#[trigger] windows[i]).id == id;
            assert(rest[i - 1] == windows[i]);
            let k = choose|k: int|
                0 <= k < rest.len() && (#[trigger] rest[k]).id == id && rest[k].pid == listed_pid(
                    rest,
                    id,
                    known,
                );
            assert(windows[k + 1] == rest[k]);
        } else {
            assert forall|k: int| 0 <= k < rest.len() implies (#[trigger] rest[k]).id != id by {
                assert(rest[k] == windows[k + 1]);
            }
        }
    } else if windows.len() > 0 {
        assert(windows[0].id == id);
    }
}

/// One way of bringing a helper to the front.
#[derive(Debug, Clone, Copy, PartialEq, Eq, Structural)]
pub enum PromoteOp {
    /// Ask for it a number of times.
    EnsureFrontmost {
        /// How often.
        attempts: u32,
        /// Delay after each time in milliseconds.
        delay_ms: u64,
    },
    /// Raise it, within an allowance in milliseconds.
    SmartRaise {
        /// Allowance in milliseconds.
        deadline_ms: u64,
    },
}

/// What is tried, whatever comes of it, before the front window is checked.
pub open spec fn promote_ops(raise: RaiseStrategy, ui_action_delay_ms: u64) -> Seq<PromoteOp> {
    match raise {
        RaiseStrategy::SmartRaise { deadline_ms } => seq![PromoteOp::SmartRaise { deadline_ms }],
        RaiseStrategy::AppActivate => seq![
            PromoteOp::EnsureFrontmost { attempts: 6, delay_ms: ui_action_delay_ms },
            PromoteOp::SmartRaise { deadline_ms: scaled_deadline(ui_action_delay_ms, 10, 400) },
        ],
        RaiseStrategy::KeepFrontWindow => Seq::empty(),
    }
}

/// What is tried, whatever comes of it, before the front window is checked.
pub fn promote_helper_frontmost(raise: RaiseStrategy, ui_action_delay_ms: u64) -> (r: Vec<PromoteOp>)
    ensures
        r@ == promote_ops(raise, ui_action_delay_ms),
{
    let mut ops: Vec<PromoteOp> = Vec::new();
    match raise {
        RaiseStrategy::SmartRaise { deadline_ms } => {
            ops.push(PromoteOp::SmartRaise { deadline_ms });
        },
        RaiseStrategy::AppActivate => {
            ops.push(PromoteOp::EnsureFrontmost { attempts: 6, delay_ms: ui_action_delay_ms });
            ops.push(
                PromoteOp::SmartRaise { deadline_ms: deadline_for(ui_action_delay_ms, 10, 400) },
            );
        },
        RaiseStrategy::KeepFrontWindow => {},
    }
    assert(ops@ =~= promote_ops(raise, ui_action_delay_ms));
    ops
}

/// What came of a request to the world service.
#[derive(Debug)]
pub enum RequestEvent {
    /// The request was accepted.
    Accepted {
        /// Whether it selected a window.
        has_target: bool,
    },
    /// The request was refused.
    Refused(String),
    /// The window is in its normal state again.
    ModeReached,
    /// The window did not get into its normal state.
    ModeOverdue(String),
}

/// What to do about a request.
#[derive(Debug)]
pub enum RequestStep {
    /// Make the request.
    Request,
    /// Wait until the window is in its normal state.
    AwaitNormal,
    /// Let helpers run and pause, in milliseconds; then make the request.
    PauseAndRequest(u64),
    /// The request is settled.
    Finish(Result<(), Error>),
}

/// How often a placement is asked for again.
pub const GRID_RETRIES: u32 = 3;

/// How often a move is asked for again.
pub const MOVE_RETRIES: u32 = 4;

/// Pause before a move is asked for again, in milliseconds.
pub const MOVE_PAUSE_MS: u64 = 80;

/// Whether a refusal is about the state of the window.
pub open spec fn about_mode(message: Seq<char>) -> bool {
    occurs(message, "mode="@)
}

/// A placement that is asked for.
#[derive(Debug)]
pub struct GridRequest {
    /// How often it was asked for again.
    pub attempts: u32,
    /// The refusal that is waited out.
    pub refusal: Option<String>,
}

impl GridRequest {
    /// A placement that has not been asked for yet.
    pub fn request_grid_with_options() -> (r: (Self, RequestStep))
        ensures
            r.0 == (GridRequest { attempts: 0, refusal: None }),
            r.1 is Request,
    {
        (GridRequest { attempts: 0, refusal: None }, RequestStep::Request)
    }

    /// Take in what came of the last step, and say what to do next.
    pub fn next(&mut self, event: RequestEvent) -> (r: RequestStep)
        requires
            old(self).attempts <= GRID_RETRIES,
        ensures
            final(self).attempts <= GRID_RETRIES,
            match event {
                RequestEvent::Accepted { has_target } => final(self).attempts == old(self).attempts && (
                if has_target {
                    r == RequestStep::Finish(Ok(()))
                } else {
                    r matches RequestStep::Finish(res) && fails_with(
                        res,
                        "placement did not select a target"@,
                    )
                }),
                RequestEvent::Refused(message) => if old(self).attempts < GRID_RETRIES
                    && about_mode(message@) {
                    &&& r is AwaitNormal
                    &&& final(self).attempts == old(self).attempts + 1
                    &&& final(self).refusal == Some(message)
                } else {
                    &&& final(self).attempts == old(self).attempts
                    &&& r matches RequestStep::Finish(res)
                    &&& fails_with(res, "placement request failed: "@ + message@)
                },
                RequestEvent::ModeReached => r is Request && final(self).attempts == old(
                    self,
                ).attempts,
                RequestEvent::ModeOverdue(why) => {
                    &&& final(self).attempts == old(self).attempts
                    &&& r matches RequestStep::Finish(res)
                    &&& fails_with(
                        res,
                        "placement request failed: "@ + (match old(self).refusal {
                            Some(m) => m@,
                            None => Seq::empty(),
                        }) + "; wait_error="@ + why@,
                    )
                },
            },
    {
        match event {
            RequestEvent::Accepted { has_target } => if has_target {
                RequestStep::Finish(Ok(()))
            } else {
                RequestStep::Finish(Err(Error::invalid("placement did not select a target")))
            },
            RequestEvent::Refused(message) => {
                if self.attempts < GRID_RETRIES && contains_text(message.as_str(), "mode=") {
                    self.attempts = self.attempts + 1;
                    self.refusal = Some(message);
                    RequestStep::AwaitNormal
                } else {
                    let mut s = "placement request failed: ".to_owned();
                    s.append(message.as_str());
                    RequestStep::Finish(Err(Error::InvalidState(s)))
                }
            },
            RequestEvent::ModeReached => RequestStep::Request,
            RequestEvent::ModeOverdue(why) => {
                let mut s = "placement request failed: ".to_owned();
                match &self.refusal {
                    Some(m) => {
                        s.append(m.as_str());
                    },
                    None => {
                        s.append("");
                        proof {
                            reveal_strlit("");
                            assert(""@ =~= Seq::empty());
                        }
                    },
                }
                s.append("; wait_error=");
                s.append(why.as_str());
                RequestStep::Finish(Err(Error::InvalidState(s)))
            },
        }
    }
}

/// A move that is asked for.
#[derive(Debug)]
pub struct MoveRequest {
    /// How often it was asked for again.
    pub attempts: u32,
}

impl MoveRequest {
    /// A move that has not been asked for yet.
    pub fn request_move() -> (r: (Self, RequestStep))
        ensures
            r.0 == (MoveRequest { attempts: 0 }),
            r.1 is Request,
    {
        (MoveRequest { attempts: 0 }, RequestStep::Request)
    }

    /// Take in the answer to the request, and say what to do next: `Ok` says
    /// whether a window was selected, `Err` why the request was refused.
    pub fn next(&mut self, answer: Result<bool, String>) -> (r: RequestStep)
        requires
            old(self).attempts <= MOVE_RETRIES,
        ensures
            final(self).attempts <= MOVE_RETRIES,
            match answer {
                Ok(has_target) => final(self).attempts == old(self).attempts && (if has_target {
                    r == RequestStep::Finish(Ok(()))
                } else {
                    r matches RequestStep::Finish(res) && fails_with(
                        res,
                        "placement move did not select a target"@,
                    )
                }),
                Err(message) => if old(self).attempts < MOVE_RETRIES && about_mode(message@) {
                    r == RequestStep::PauseAndRequest(MOVE_PAUSE_MS) && final(self).attempts == old(
                        self,
                    ).attempts + 1
                } else {
                    &&& final(self).attempts == old(self).attempts
                    &&& r matches RequestStep::Finish(res)
                    &&& fails_with(res, "move request failed: "@ + message@)
                },
            },
    {
        match answer {
            Ok(has_target) => if has_target {
                RequestStep::Finish(Ok(()))
            } else {
                RequestStep::Finish(Err(Error::invalid("placement move did not select a target")))
            },
            Err(message) => {
                if self.attempts < MOVE_RETRIES && contains_text(message.as_str(), "mode=") {
                    self.attempts = self.attempts + 1;
                    RequestStep::PauseAndRequest(MOVE_PAUSE_MS)
                } else {
                    let mut s = "move request failed: ".to_owned();
                    s.append(message.as_str());
                    RequestStep::Finish(Err(Error::InvalidState(s)))
                }
            },
        }
    }
}

} // verus!
