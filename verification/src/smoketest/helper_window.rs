//! Helper windows: how they are started, awaited and brought to the front.

use vstd::prelude::*;
use vstd::string::*;

use crate::geom::UNITS_PER_POINT;
use crate::pick::{first_where_at, first_where_none, pick_where};
use crate::smoketest::config::{NANOS_PER_MS, POLL_INTERVAL_MS};
use crate::smoketest::error::Error;
use crate::smoketest::timed_look::{LookStep, TimedLook};
use crate::smoketest::windows::{format_points, points_text};
use crate::text::{dec, decimal, text_eq, texts};
use crate::window::WindowInfo;

verus! {

/// A helper window that is to be started; lengths are in units of a point.
#[derive(Debug)]
pub struct HelperWindowBuilder {
    /// Title of the window.
    pub title: String,
    /// How long the helper lives, in milliseconds.
    pub time_ms: u64,
    /// Delay before a frame is taken over, in milliseconds.
    pub delay_setframe_ms: Option<u64>,
    /// Delay before the target is taken over, in milliseconds.
    pub delay_apply_ms: Option<u64>,
    /// How long a change of the frame takes, in milliseconds.
    pub tween_ms: Option<u64>,
    /// The frame that is taken over after the delay.
    pub apply_target: Option<(i64, i64, i64, i64)>,
    /// The cell that is taken over after the delay: columns, rows, column, row.
    pub apply_grid: Option<(u32, u32, u32, u32)>,
    /// The cell of the window: columns, rows, column, row.
    pub grid: Option<(u32, u32, u32, u32)>,
    /// Size of the window.
    pub size: Option<(i64, i64)>,
    /// Position of the window.
    pub pos: Option<(i64, i64)>,
    /// Label in the window.
    pub label_text: Option<String>,
    /// Least size of the window.
    pub min_size: Option<(i64, i64)>,
    /// Whether the window starts minimized.
    pub start_minimized: bool,
    /// Whether the window starts zoomed.
    pub start_zoomed: bool,
    /// Whether the window cannot be moved.
    pub nonmovable: bool,
    /// Whether the window cannot be resized.
    pub nonresizable: bool,
    /// Whether a sheet is attached.
    pub attach_sheet: bool,
    /// Steps in which the window can be sized.
    pub step_size: Option<(i64, i64)>,
}

/// An option with one number.
pub open spec fn number_arg(flag: Seq<char>, n: Option<u64>) -> Seq<Seq<char>> {
    match n {
        Some(n) => seq![flag, dec(n as nat)],
        None => Seq::empty(),
    }
}

/// An option with two lengths.
pub open spec fn pair_arg(flag: Seq<char>, p: Option<(i64, i64)>) -> Seq<Seq<char>> {
    match p {
        Some((a, b)) => seq![flag, points_text(a as int), points_text(b as int)],
        None => Seq::empty(),
    }
}

/// An option with four lengths.
pub open spec fn rect_arg(flag: Seq<char>, p: Option<(i64, i64, i64, i64)>) -> Seq<Seq<char>> {
    match p {
        Some((a, b, c, d)) => seq![
            flag,
            points_text(a as int),
            points_text(b as int),
            points_text(c as int),
            points_text(d as int),
        ],
        None => Seq::empty(),
    }
}

/// An option with a cell.
pub open spec fn cell_arg(flag: Seq<char>, p: Option<(u32, u32, u32, u32)>) -> Seq<Seq<char>> {
    match p {
        Some((a, b, c, d)) => seq![
            flag,
            dec(a as nat),
            dec(b as nat),
            dec(c as nat),
            dec(d as nat),
        ],
        None => Seq::empty(),
    }
}

/// An option with a text.
pub open spec fn text_arg(flag: Seq<char>, t: Option<String>) -> Seq<Seq<char>> {
    match t {
        Some(t) => seq![flag, t@],
        None => Seq::empty(),
    }
}

/// An option without a value.
pub open spec fn flag_arg(flag: Seq<char>, on: bool) -> Seq<Seq<char>> {
    if on {
        seq![flag]
    } else {
        Seq::empty()
    }
}

fn push_number(args: &mut Vec<String>, flag: &str, n: Option<u64>)
    ensures
        texts(final(args)@) == texts(old(args)@) + number_arg(flag@, n),
{
    let ghost before = texts(args@);
    if let Some(n) = n {
        args.push(flag.to_owned());
        args.push(decimal(n));
    }
    assert(texts(args@) =~= before + number_arg(flag@, n));
}

fn push_pair(args: &mut Vec<String>, flag: &str, p: Option<(i64, i64)>)
    ensures
        texts(final(args)@) == texts(old(args)@) + pair_arg(flag@, p),
{
    let ghost before = texts(args@);
    if let Some((a, b)) = p {
        args.push(flag.to_owned());
        args.push(format_points(a as i128));
        args.push(format_points(b as i128));
    }
    assert(texts(args@) =~= before + pair_arg(flag@, p));
}

fn push_rect(args: &mut Vec<String>, flag: &str, p: Option<(i64, i64, i64, i64)>)
    ensures
        texts(final(args)@) == texts(old(args)@) + rect_arg(flag@, p),
{
    let ghost before = texts(args@);
    if let Some((a, b, c, d)) = p {
        args.push(flag.to_owned());
        args.push(format_points(a as i128));
        args.push(format_points(b as i128));
        args.push(format_points(c as i128));
        args.push(format_points(d as i128));
    }
    assert(texts(args@) =~= before + rect_arg(flag@, p));
}

fn push_cell(args: &mut Vec<String>, flag: &str, p: Option<(u32, u32, u32, u32)>)
    ensures
        texts(final(args)@) == texts(old(args)@) + cell_arg(flag@, p),
{
    let ghost before = texts(args@);
    if let Some((a, b, c, d)) = p {
        args.push(flag.to_owned());
        args.push(decimal(a as u64));
        args.push(decimal(b as u64));
        args.push(decimal(c as u64));
        args.push(decimal(d as u64));
    }
    assert(texts(args@) =~= before + cell_arg(flag@, p));
}

fn push_text(args: &mut Vec<String>, flag: &str, t: &Option<String>)
    ensures
        texts(final(args)@) == texts(old(args)@) + text_arg(flag@, *t),
{
    let ghost before = texts(args@);
    if let Some(t) = t {
        args.push(flag.to_owned());
        args.push(t.clone());
    }
    assert(texts(args@) =~= before + text_arg(flag@, *t));
}

fn push_flag(args: &mut Vec<String>, flag: &str, on: bool)
    ensures
        texts(final(args)@) == texts(old(args)@) + flag_arg(flag@, on),
{
    let ghost before = texts(args@);
    if on {
        args.push(flag.to_owned());
    }
    assert(texts(args@) =~= before + flag_arg(flag@, on));
}

/// A length of at least one point.
pub open spec fn at_least_a_point(v: i64) -> i64 {
    if v < UNITS_PER_POINT {
        UNITS_PER_POINT
    } else {
        v
    }
}

fn floor_of_a_point(v: i64) -> (r: i64)
    ensures
        r == at_least_a_point(v),
{
    if v < UNITS_PER_POINT {
        UNITS_PER_POINT
    } else {
        v
    }
}

impl HelperWindowBuilder {
    /// A helper with a title that lives for half a minute.
    pub fn new(title: String) -> (r: Self)
        ensures
            r == (HelperWindowBuilder {
                title,
                time_ms: 30_000,
                delay_setframe_ms: None,
                delay_apply_ms: None,
                tween_ms: None,
                apply_target: None,
                apply_grid: None,
                grid: None,
                size: None,
                pos: None,
                label_text: None,
                min_size: None,
                start_minimized: false,
                start_zoomed: false,
                nonmovable: false,
                nonresizable: false,
                attach_sheet: false,
                step_size: None,
            }),
    {
        HelperWindowBuilder {
            title,
            time_ms: 30_000,
            delay_setframe_ms: None,
            delay_apply_ms: None,
            tween_ms: None,
            apply_target: None,
            apply_grid: None,
            grid: None,
            size: None,
            pos: None,
            label_text: None,
            min_size: None,
            start_minimized: false,
            start_zoomed: false,
            nonmovable: false,
            nonresizable: false,
            attach_sheet: false,
            step_size: None,
        }
    }

    /// Set how long the helper lives.
    pub fn with_time_ms(self, ms: u64) -> (r: Self)
        ensures
            r == (HelperWindowBuilder { time_ms: ms, ..self }),
    {
        HelperWindowBuilder { time_ms: ms, ..self }
    }

    /// Put the window into a cell.
    pub fn with_grid(self, cols: u32, rows: u32, col: u32, row: u32) -> (r: Self)
        ensures
            r == (HelperWindowBuilder { grid: Some((cols, rows, col, row)), ..self }),
    {
        HelperWindowBuilder { grid: Some((cols, rows, col, row)), ..self }
    }

    /// Set the size of the window.
    pub fn with_size(self, width: i64, height: i64) -> (r: Self)
        ensures
            r == (HelperWindowBuilder { size: Some((width, height)), ..self }),
    {
        HelperWindowBuilder { size: Some((width, height)), ..self }
    }

    /// Set the position of the window.
    pub fn with_position(self, x: i64, y: i64) -> (r: Self)
        ensures
            r == (HelperWindowBuilder { pos: Some((x, y)), ..self }),
    {
        HelperWindowBuilder { pos: Some((x, y)), ..self }
    }

    /// Put the window into a cell after a delay.
    pub fn with_delay_apply_grid(self, ms: u64, cols: u32, rows: u32, col: u32, row: u32) -> (r:
        Self)
        ensures
            r == (HelperWindowBuilder {
                delay_apply_ms: Some(ms),
                apply_grid: Some((cols, rows, col, row)),
                ..self
            }),
    {
        HelperWindowBuilder {
            delay_apply_ms: Some(ms),
            apply_grid: Some((cols, rows, col, row)),
            ..self
        }
    }

    /// Let changes of the frame take time.
    pub fn with_tween_ms(self, ms: u64) -> (r: Self)
        ensures
            r == (HelperWindowBuilder { tween_ms: Some(ms), ..self }),
    {
        HelperWindowBuilder { tween_ms: Some(ms), ..self }
    }

    /// Set the label.
    pub fn with_label_text(self, text: String) -> (r: Self)
        ensures
            r == (HelperWindowBuilder { label_text: Some(text), ..self }),
    {
        HelperWindowBuilder { label_text: Some(text), ..self }
    }

    /// Set the least size of the window, of a point or more each way.
    pub fn with_min_size(self, width: i64, height: i64) -> (r: Self)
        ensures
            r == (HelperWindowBuilder {
                min_size: Some((at_least_a_point(width), at_least_a_point(height))),
                ..self
            }),
    {
        HelperWindowBuilder {
            min_size: Some((floor_of_a_point(width), floor_of_a_point(height))),
            ..self
        }
    }

    /// Set the steps in which the window can be sized.
    pub fn with_step_size(self, w: i64, h: i64) -> (r: Self)
        ensures
            r == (HelperWindowBuilder { step_size: Some((w, h)), ..self }),
    {
        HelperWindowBuilder { step_size: Some((w, h)), ..self }
    }

    /// Set whether the window starts minimized.
    pub fn with_start_minimized(self, v: bool) -> (r: Self)
        ensures
            r == (HelperWindowBuilder { start_minimized: v, ..self }),
    {
        HelperWindowBuilder { start_minimized: v, ..self }
    }

    /// Set whether the window starts zoomed.
    pub fn with_start_zoomed(self, v: bool) -> (r: Self)
        ensures
            r == (HelperWindowBuilder { start_zoomed: v, ..self }),
    {
        HelperWindowBuilder { start_zoomed: v, ..self }
    }

    /// Set whether the window cannot be moved.
    pub fn with_nonmovable(self, v: bool) -> (r: Self)
        ensures
            r == (HelperWindowBuilder { nonmovable: v, ..self }),
    {
        HelperWindowBuilder { nonmovable: v, ..self }
    }

    /// Set whether the window cannot be resized.
    pub fn with_nonresizable(self, v: bool) -> (r: Self)
        ensures
            r == (HelperWindowBuilder { nonresizable: v, ..self }),
    {
        HelperWindowBuilder { nonresizable: v, ..self }
    }

    /// Set whether a sheet is attached.
    pub fn with_attach_sheet(self, v: bool) -> (r: Self)
        ensures
            r == (HelperWindowBuilder { attach_sheet: v, ..self }),
    {
        HelperWindowBuilder { attach_sheet: v, ..self }
    }

    /// Arguments of the helper: its title and lifetime, then each option that is set.
    pub open spec fn args_spec(&self) -> Seq<Seq<char>> {
        seq!["focus-winhelper"@, "--title"@, self.title@, "--time"@, dec(self.time_ms as nat)]
            + number_arg("--delay-setframe-ms"@, self.delay_setframe_ms) + number_arg(
            "--delay-apply-ms"@,
            self.delay_apply_ms,
        ) + number_arg("--tween-ms"@, self.tween_ms) + rect_arg(
            "--apply-target"@,
            self.apply_target,
        ) + cell_arg("--apply-grid"@, self.apply_grid) + cell_arg("--grid"@, self.grid) + pair_arg(
            "--size"@,
            self.size,
        ) + pair_arg("--pos"@, self.pos) + text_arg("--label-text"@, self.label_text) + pair_arg(
            "--min-size"@,
            self.min_size,
        ) + pair_arg("--step-size"@, self.step_size) + flag_arg(
            "--start-minimized"@,
            self.start_minimized,
        ) + flag_arg("--start-zoomed"@, self.start_zoomed) + flag_arg(
            "--panel-nonmovable"@,
            self.nonmovable,
        ) + flag_arg("--non-resizable"@, self.nonresizable) + flag_arg(
            "--attach-sheet"@,
            self.attach_sheet,
        )
    }

    /// Arguments of the helper.
    pub fn configure_command(&self) -> (r: Vec<String>)
        ensures
            texts(r@) == self.args_spec(),
    {
        let mut args = vec![
            "focus-winhelper".to_owned(),
            "--title".to_owned(),
            self.title.clone(),
            "--time".to_owned(),
            decimal(self.time_ms),
        ];
        assert(texts(args@) =~= seq![
            "focus-winhelper"@,
            "--title"@,
            self.title@,
            "--time"@,
            dec(self.time_ms as nat),
        ]);
        push_number(&mut args, "--delay-setframe-ms", self.delay_setframe_ms);
        push_number(&mut args, "--delay-apply-ms", self.delay_apply_ms);
        push_number(&mut args, "--tween-ms", self.tween_ms);
        push_rect(&mut args, "--apply-target", self.apply_target);
        push_cell(&mut args, "--apply-grid", self.apply_grid);
        push_cell(&mut args, "--grid", self.grid);
        push_pair(&mut args, "--size", self.size);
        push_pair(&mut args, "--pos", self.pos);
        push_text(&mut args, "--label-text", &self.label_text);
        push_pair(&mut args, "--min-size", self.min_size);
        push_pair(&mut args, "--step-size", self.step_size);
        push_flag(&mut args, "--start-minimized", self.start_minimized);
        push_flag(&mut args, "--start-zoomed", self.start_zoomed);
        push_flag(&mut args, "--panel-nonmovable", self.nonmovable);
        push_flag(&mut args, "--non-resizable", self.nonresizable);
        push_flag(&mut args, "--attach-sheet", self.attach_sheet);
        args
    }
}

/// A helper that is awaited, with a lifetime and a label, and maybe minimized or
/// zoomed at first.
pub fn helper_with_options(
    title: String,
    lifetime_ms: u64,
    label_text: String,
    start_minimized: bool,
    start_zoomed: bool,
) -> (r: HelperWindowBuilder)
    ensures
        r.title == title,
        r.time_ms == lifetime_ms,
        r.label_text == Some(label_text),
        r.start_minimized == start_minimized,
        r.start_zoomed == start_zoomed,
        r.args_spec() == seq![
            "focus-winhelper"@,
            "--title"@,
            title@,
            "--time"@,
            dec(lifetime_ms as nat),
            "--label-text"@,
            label_text@,
        ] + flag_arg("--start-minimized"@, start_minimized) + flag_arg(
            "--start-zoomed"@,
            start_zoomed,
        ),
{
    let r = HelperWindowBuilder::new(title).with_time_ms(lifetime_ms).with_label_text(
        label_text,
    ).with_start_minimized(start_minimized).with_start_zoomed(start_zoomed);
    assert(r.args_spec() =~= seq![
        "focus-winhelper"@,
        "--title"@,
        title@,
        "--time"@,
        dec(lifetime_ms as nat),
        "--label-text"@,
        label_text@,
    ] + flag_arg("--start-minimized"@, start_minimized) + flag_arg(
        "--start-zoomed"@,
        start_zoomed,
    ));
    r
}

/// Fail when a helper's window was not seen in time.
pub fn judge_visible(title: &str, visible: bool, timeout_ms: u64) -> (r: Result<(), Error>)
    ensures
        if visible {
            r is Ok
        } else {
            r matches Err(Error::FocusNotObserved { timeout_ms: t, expected }) && t == timeout_ms
                && expected@ == "helper window '"@ + title@ + "' not visible"@
        },
{
    if visible {
        return Ok(());
    }
    let mut s = "helper window '".to_owned();
    s.append(title);
    s.append("' not visible");
    Err(Error::FocusNotObserved { timeout_ms, expected: s })
}

/// Whether a window has a process and a title.
pub open spec fn is_window(pid: i32, title: Seq<char>) -> spec_fn(WindowInfo) -> bool {
    |w: WindowInfo| w.pid == pid && w.title@ == title
}

/// How a window is brought to the front.
#[derive(Debug, Clone, Copy, PartialEq, Eq, Structural)]
pub enum FrontRequest {
    /// Raise the window.
    Raise(u32),
    /// Activate the process, since the window is not listed.
    ActivateProcess,
}

/// How a window is brought to the front.
pub fn front_request(windows: &Vec<WindowInfo>, pid: i32, title: &str) -> (r: FrontRequest)
    ensures
        match pick_where(windows@, is_window(pid, title@)) {
            Some(w) => r == FrontRequest::Raise(w.id),
            None => r is ActivateProcess,
        },
{
    let mut i: usize = 0;
    while i < windows.len()
        invariant
            i <= windows@.len(),
            forall|j: int| 0 <= j < i ==> !is_window(pid, title@)(#[trigger] windows@[j]),
        decreases windows@.len() - i,
    {
        if windows[i].pid == pid && text_eq(windows[i].title.as_str(), title) {
            proof {
                first_where_at(windows@, is_window(pid, title@), i as int);
            }
            return FrontRequest::Raise(windows[i].id);
        }
        i = i + 1;
    }
    proof {
        first_where_none(windows@, is_window(pid, title@));
    }
    FrontRequest::ActivateProcess
}

/// What to do to bring a window to the front.
#[derive(Debug, Clone, Copy, PartialEq, Eq, Structural)]
pub enum FrontStep {
    /// List the windows, and make the request that follows.
    ListAndRequest,
    /// Pause for milliseconds, then wait as long for the window at the front.
    PauseAndWait(u64),
    /// It is over.
    Over,
}

/// What was learned while a window is brought to the front.
#[derive(Debug, Clone, Copy, PartialEq, Eq, Structural)]
pub enum FrontEvent {
    /// The request was made.
    Requested,
    /// Whether the window is at the front.
    Waited(bool),
}

/// A window that is brought to the front, with some attempts.
#[derive(Debug, Clone, Copy, PartialEq, Eq, Structural)]
pub struct EnsureFrontmost {
    /// Attempts that are left.
    pub left: usize,
    /// Pause in milliseconds.
    pub delay_ms: u64,
}

impl EnsureFrontmost {
    /// The step between attempts.
    pub open spec fn due(self) -> FrontStep {
        if self.left > 0 {
            FrontStep::ListAndRequest
        } else {
            FrontStep::Over
        }
    }

    /// Begin with some attempts.
    pub fn ensure_frontmost(attempts: usize, delay_ms: u64) -> (r: (Self, FrontStep))
        ensures
            r.0 == (EnsureFrontmost { left: attempts, delay_ms }),
            r.1 == r.0.due(),
    {
        let run = EnsureFrontmost { left: attempts, delay_ms };
        if attempts > 0 {
            (run, FrontStep::ListAndRequest)
        } else {
            (run, FrontStep::Over)
        }
    }

    /// Take in what was learned. Whatever comes of the last attempt, it is over then.
    pub fn next(&mut self, event: FrontEvent) -> (r: FrontStep)
        ensures
            final(self).delay_ms == old(self).delay_ms,
            match event {
                FrontEvent::Requested => *final(self) == *old(self) && r == FrontStep::PauseAndWait(
                    old(self).delay_ms,
                ),
                FrontEvent::Waited(true) => final(self).left == 0 && r is Over,
                FrontEvent::Waited(false) => final(self).left == if old(self).left > 0 {
                    old(self).left - 1
                } else {
                    0
                } && r == final(self).due(),
            },
    {
        match event {
            FrontEvent::Requested => FrontStep::PauseAndWait(self.delay_ms),
            FrontEvent::Waited(there) => {
                if there {
                    self.left = 0;
                    return FrontStep::Over;
                }
                if self.left > 0 {
                    self.left = self.left - 1;
                }
                if self.left > 0 {
                    FrontStep::ListAndRequest
                } else {
                    FrontStep::Over
                }
            },
        }
    }
}

/// Whether a window of a process is visible: the desktop lists it, or the process says
/// that it has it.
pub fn is_visible(windows: &Vec<WindowInfo>, pid: i32, title: &str, has_title: bool) -> (r: bool)
    ensures
        r == (has_title || pick_where(windows@, is_window(pid, title@)) is Some),
{
    has_title || matches!(front_request(windows, pid, title), FrontRequest::Raise(_))
}

/// Whether the frontmost window has a title.
pub fn is_frontmost_title(front: &Option<WindowInfo>, expected: &str) -> (r: bool)
    ensures
        r == (match *front {
            Some(w) => w.title@ == expected@,
            None => false,
        }),
{
    match front {
        Some(w) => text_eq(w.title.as_str(), expected),
        None => false,
    }
}

/// Begin to wait until a window is visible.
pub fn wait_for_window_visible(timeout_ms: u64, poll_ms: u64, now: u64) -> (r: (
    TimedLook,
    LookStep,
))
    ensures
        r.0.deadline == now + timeout_ms * NANOS_PER_MS,
        r.0.pause_ms == poll_ms,
        r.1 == if timeout_ms > 0 {
            LookStep::Look
        } else {
            LookStep::Over(false)
        },
{
    TimedLook::start(timeout_ms, poll_ms, now)
}

/// Begin to wait until the frontmost window has a title.
pub fn wait_for_frontmost_title(timeout_ms: u64, now: u64) -> (r: (TimedLook, LookStep))
    ensures
        r.0.deadline == now + timeout_ms * NANOS_PER_MS,
        r.0.pause_ms == POLL_INTERVAL_MS,
        r.1 == if timeout_ms > 0 {
            LookStep::Look
        } else {
            LookStep::Over(false)
        },
{
    TimedLook::start(timeout_ms, POLL_INTERVAL_MS, now)
}

/// How often a helper is brought to the front.
pub const FRONT_ATTEMPTS: usize = 3;

/// What is waited for while a helper is started.
#[derive(Debug, Clone, Copy, PartialEq, Eq, Structural)]
pub enum HelperStage {
    /// The process.
    Spawning,
    /// Whether the window is visible.
    Looking,
    /// The end of a pause.
    Resting,
    /// The request to bring it to the front.
    Requesting,
    /// Whether it is at the front.
    Fronting,
    /// Nothing.
    Over,
}

/// What to do to start a helper.
#[derive(Debug)]
pub enum HelperStep {
    /// Start the process.
    Spawn,
    /// Look whether the window is visible.
    Look,
    /// Pause for milliseconds.
    Pause(u64),
    /// List the windows, and make the request that follows.
    ListAndRequest,
    /// Pause for milliseconds, then wait as long for the window at the front.
    PauseAndWait(u64),
    /// Nothing: this is the result, with the process.
    Finish(Result<i32, Error>),
}

/// What was learned while a helper is started.
#[derive(Debug)]
pub enum HelperEvent {
    /// The process was started.
    Spawned(i32),
    /// The process could not be started.
    SpawnFailed(String),
    /// Whether the window is visible.
    Looked(bool),
    /// The pause is over.
    Rested,
    /// The request was made.
    Requested,
    /// Whether the window is at the front.
    Fronted(bool),
}

/// A helper that is started and brought to the front.
#[derive(Debug)]
pub struct SpawnFrontmost {
    /// Title of its window.
    pub title: String,
    /// How long the window may take to be visible, in milliseconds.
    pub timeout_ms: u64,
    /// The wait for the window.
    pub look: TimedLook,
    /// The attempts to bring it to the front.
    pub front: EnsureFrontmost,
    /// The process, once it is started.
    pub pid: i32,
    /// What is waited for.
    pub stage: HelperStage,
}

impl SpawnFrontmost {
    /// Whether an event answers what is waited for.
    pub open spec fn fits(&self, event: HelperEvent) -> bool {
        match event {
            HelperEvent::Spawned(_) | HelperEvent::SpawnFailed(_) => self.stage is Spawning,
            HelperEvent::Looked(_) => self.stage is Looking,
            HelperEvent::Rested => self.stage is Resting,
            HelperEvent::Requested => self.stage is Requesting,
            HelperEvent::Fronted(_) => self.stage is Fronting,
        }
    }

    /// Whether the window was not seen in time.
    pub open spec fn missed(&self, after: SpawnFrontmost, step: HelperStep) -> bool {
        &&& after.stage is Over
        &&& step matches HelperStep::Finish(Err(Error::FocusNotObserved { timeout_ms, expected }))
        &&& timeout_ms == self.timeout_ms
        &&& expected@ == "helper window '"@ + self.title@ + "' not visible"@
    }

    /// Whether `after` and `step` answer an event.
    pub open spec fn answered(
        &self,
        event: HelperEvent,
        now: u64,
        after: SpawnFrontmost,
        step: HelperStep,
    ) -> bool {
        &&& after.title == self.title
        &&& after.timeout_ms == self.timeout_ms
        &&& after.look.pause_ms == self.look.pause_ms
        &&& after.front.delay_ms == self.front.delay_ms
        &&& match event {
            HelperEvent::SpawnFailed(why) => after.stage is Over && step == HelperStep::Finish(
                Err(Error::SpawnFailed(why)),
            ),
            HelperEvent::Spawned(pid) => {
                &&& after.pid == pid
                &&& after.front == self.front
                &&& after.look.deadline == now + self.timeout_ms * NANOS_PER_MS
                &&& if self.timeout_ms > 0 {
                    after.stage is Looking && step is Look
                } else {
                    self.missed(after, step)
                }
            },
            HelperEvent::Looked(there) => {
                &&& after.pid == self.pid
                &&& after.look == self.look
                &&& after.front == self.front
                &&& if !there {
                    after.stage is Resting && step == HelperStep::Pause(self.look.pause_ms)
                } else if self.front.left > 0 {
                    after.stage is Requesting && step is ListAndRequest
                } else {
                    after.stage is Over && step == HelperStep::Finish(Ok(self.pid))
                }
            },
            HelperEvent::Rested => {
                &&& after.pid == self.pid
                &&& after.look == self.look
                &&& after.front == self.front
                &&& if now < self.look.deadline {
                    after.stage is Looking && step is Look
                } else {
                    self.missed(after, step)
                }
            },
            HelperEvent::Requested => {
                &&& after.pid == self.pid
                &&& after.look == self.look
                &&& after.front == self.front
                &&& after.stage is Fronting
                &&& step == HelperStep::PauseAndWait(self.front.delay_ms)
            },
            HelperEvent::Fronted(there) => {
                &&& after.pid == self.pid
                &&& after.look == self.look
                &&& after.front.left == if there || self.front.left == 0 {
                    0
                } else {
                    self.front.left - 1
                }
                &&& if after.front.left > 0 {
                    after.stage is Requesting && step is ListAndRequest
                } else {
                    after.stage is Over && step == HelperStep::Finish(Ok(self.pid))
                }
            },
        }
    }

    /// Begin to start a helper.
    pub fn spawn_frontmost(title: String, visible_timeout_ms: u64, poll_ms: u64, delay_ms: u64) -> (r:
        (Self, HelperStep))
        ensures
            r.0 == (SpawnFrontmost {
                title,
                timeout_ms: visible_timeout_ms,
                look: TimedLook { deadline: 0, pause_ms: poll_ms },
                front: EnsureFrontmost { left: FRONT_ATTEMPTS, delay_ms },
                pid: 0,
                stage: HelperStage::Spawning,
            }),
            r.1 is Spawn,
    {
        let (front, _) = EnsureFrontmost::ensure_frontmost(FRONT_ATTEMPTS, delay_ms);
        (
            SpawnFrontmost {
                title,
                timeout_ms: visible_timeout_ms,
                look: TimedLook { deadline: 0, pause_ms: poll_ms },
                front,
                pid: 0,
                stage: HelperStage::Spawning,
            },
            HelperStep::Spawn,
        )
    }

    fn go(&mut self, stage: HelperStage, step: HelperStep) -> (r: HelperStep)
        ensures
            *final(self) == (SpawnFrontmost { stage, ..*old(self) }),
            r == step,
    {
        self.stage = stage;
        step
    }

    fn look_on(&mut self, step: LookStep) -> (r: HelperStep)
        requires
            step == LookStep::Look || step == LookStep::Over(false),
        ensures
            final(self).title == old(self).title,
            final(self).timeout_ms == old(self).timeout_ms,
            final(self).look == old(self).look,
            final(self).front == old(self).front,
            final(self).pid == old(self).pid,
            step is Look ==> final(self).stage is Looking && r is Look,
            step is Over ==> old(self).missed(*final(self), r),
    {
        match step {
            LookStep::Look => self.go(HelperStage::Looking, HelperStep::Look),
            _ => {
                let result = match judge_visible(self.title.as_str(), false, self.timeout_ms) {
                    Ok(()) => Ok(self.pid),
                    Err(e) => Err(e),
                };
                self.go(HelperStage::Over, HelperStep::Finish(result))
            },
        }
    }

    fn bring_forward(&mut self) -> (r: HelperStep)
        ensures
            final(self).title == old(self).title,
            final(self).timeout_ms == old(self).timeout_ms,
            final(self).look == old(self).look,
            final(self).front == old(self).front,
            final(self).pid == old(self).pid,
            if old(self).front.left > 0 {
                final(self).stage is Requesting && r is ListAndRequest
            } else {
                final(self).stage is Over && r == HelperStep::Finish(Ok(old(self).pid))
            },
    {
        if self.front.left > 0 {
            self.go(HelperStage::Requesting, HelperStep::ListAndRequest)
        } else {
            let pid: i32 = self.pid;
            self.go(HelperStage::Over, HelperStep::Finish(Ok(pid)))
        }
    }

    /// Take in what was learned, and say what to do next. A helper whose window is
    /// visible is started well, whether it comes to the front or not.
    pub fn next(&mut self, event: HelperEvent, now: u64) -> (r: HelperStep)
        requires
            old(self).fits(event),
        ensures
            old(self).answered(event, now, *final(self), r),
    {
        match event {
            HelperEvent::SpawnFailed(why) => self.go(
                HelperStage::Over,
                HelperStep::Finish(Err(Error::SpawnFailed(why))),
            ),
            HelperEvent::Spawned(pid) => {
                let (look, step) = wait_for_window_visible(
                    self.timeout_ms,
                    self.look.pause_ms,
                    now,
                );
                self.pid = pid;
                self.look = look;
                self.look_on(step)
            },
            HelperEvent::Looked(there) => match self.look.seen(there) {
                LookStep::Pause(pause_ms) => self.go(
                    HelperStage::Resting,
                    HelperStep::Pause(pause_ms),
                ),
                _ => self.bring_forward(),
            },
            HelperEvent::Rested => {
                let step = self.look.rested(now);
                self.look_on(step)
            },
            HelperEvent::Requested => {
                let delay_ms: u64 = self.front.delay_ms;
                self.go(HelperStage::Fronting, HelperStep::PauseAndWait(delay_ms))
            },
            HelperEvent::Fronted(there) => {
                let _ = self.front.next(FrontEvent::Waited(there));
                self.bring_forward()
            },
        }
    }
}

/// A helper counts as started only once its window was seen.
pub proof fn started_helpers_were_seen(
    run: SpawnFrontmost,
    event: HelperEvent,
    now: u64,
    after: SpawnFrontmost,
    pid: i32,
)
    requires
        run.fits(event),
        run.answered(event, now, after, HelperStep::Finish(Ok(pid))),
    ensures
        pid == run.pid,
        event == HelperEvent::Looked(true) || event is Fronted,
{
}

} // verus!
