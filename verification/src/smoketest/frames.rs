//! Observed window frames, in whole pixels, and how they are compared.

use vstd::prelude::*;
use vstd::string::*;

use crate::geom::{Point, Rect, UNITS_PER_POINT};
use crate::place::grid::{cell_rect, tiles};
use crate::screen::ScreenLayout;
use crate::smoketest::error::{fails_with, is_invalid, Error};
use crate::text::{dec, dec_int, decimal, decimal_signed, join, joined, texts};

verus! {

/// A rectangle in whole pixels.
#[derive(Debug, Clone, Copy, PartialEq, Eq, Structural)]
pub struct RectPx {
    /// Left edge.
    pub x: i32,
    /// Bottom edge.
    pub y: i32,
    /// Width.
    pub w: i32,
    /// Height.
    pub h: i32,
}

/// How far one rectangle is from another.
#[derive(Debug, Clone, Copy, PartialEq, Eq, Structural)]
pub struct RectDelta {
    /// Shift of the left edge.
    pub dx: i64,
    /// Shift of the bottom edge.
    pub dy: i64,
    /// Growth of the width.
    pub dw: i64,
    /// Growth of the height.
    pub dh: i64,
}

/// The state that a window is in.
#[derive(Debug, Clone, Copy, PartialEq, Eq, Structural)]
pub enum WindowMode {
    /// On screen, in its own frame.
    Normal,
    /// Moved off screen.
    Hidden,
    /// In the Dock.
    Minimized,
    /// Native full screen.
    Fullscreen,
}

impl WindowMode {
    /// The name of the mode.
    pub open spec fn label(self) -> Seq<char> {
        match self {
            WindowMode::Normal => "Normal"@,
            WindowMode::Hidden => "Hidden"@,
            WindowMode::Minimized => "Minimized"@,
            WindowMode::Fullscreen => "Fullscreen"@,
        }
    }

    /// The name of the mode.
    pub fn name(self) -> (s: &'static str)
        ensures
            s@ == self.label(),
    {
        match self {
            WindowMode::Normal => "Normal",
            WindowMode::Hidden => "Hidden",
            WindowMode::Minimized => "Minimized",
            WindowMode::Fullscreen => "Fullscreen",
        }
    }
}

/// What was observed of a window.
#[derive(Debug, Clone, Copy, PartialEq, Eq, Structural)]
pub struct Frames {
    /// The frame that counts.
    pub authoritative: RectPx,
    /// The frame that Accessibility reports.
    pub ax: Option<RectPx>,
    /// The frame that the window server reports.
    pub cg: Option<RectPx>,
    /// Scale factor of the screen in hundredths.
    pub scale_centi: u32,
    /// The state that the window is in.
    pub mode: WindowMode,
}

/// A value halved towards zero.
pub open spec fn half(v: int) -> int {
    if v >= 0 {
        v / 2
    } else {
        -((-v) / 2)
    }
}

/// A coordinate in whole pixels: the nearest, away from zero when two are.
pub open spec fn nearest_px(units: int) -> int {
    if units >= 0 {
        (units + UNITS_PER_POINT / 2) / (UNITS_PER_POINT as int)
    } else {
        -((-units + UNITS_PER_POINT / 2) / (UNITS_PER_POINT as int))
    }
}

/// A coordinate in whole pixels, kept within what one can hold.
pub open spec fn px(units: int) -> int {
    if nearest_px(units) > i32::MAX {
        i32::MAX as int
    } else if nearest_px(units) < i32::MIN {
        i32::MIN as int
    } else {
        nearest_px(units)
    }
}

fn px_exec(units: i64) -> (r: i32)
    ensures
        r == px(units as int),
{
    let wide: i128 = units as i128;
    let nearest: i128 = if wide >= 0 {
        (wide + (UNITS_PER_POINT / 2) as i128) / UNITS_PER_POINT as i128
    } else {
        -((-wide + (UNITS_PER_POINT / 2) as i128) / UNITS_PER_POINT as i128)
    };
    if nearest > i32::MAX as i128 {
        i32::MAX
    } else if nearest < i32::MIN as i128 {
        i32::MIN
    } else {
        nearest as i32
    }
}

impl RectPx {
    /// The rectangle of this delta from another.
    pub open spec fn delta_to(self, other: RectPx) -> RectDelta {
        RectDelta {
            dx: (other.x - self.x) as i64,
            dy: (other.y - self.y) as i64,
            dw: (other.w - self.w) as i64,
            dh: (other.h - self.h) as i64,
        }
    }

    /// How far `other` is from this rectangle.
    pub fn delta(&self, other: &RectPx) -> (r: RectDelta)
        ensures
            r == self.delta_to(*other),
            r.dx == other.x - self.x,
            r.dy == other.y - self.y,
            r.dw == other.w - self.w,
            r.dh == other.h - self.h,
    {
        RectDelta {
            dx: other.x as i64 - self.x as i64,
            dy: other.y as i64 - self.y as i64,
            dw: other.w as i64 - self.w as i64,
            dh: other.h as i64 - self.h as i64,
        }
    }

    /// The rectangle in whole pixels.
    pub open spec fn of_rect(rect: Rect) -> RectPx {
        RectPx {
            x: px(rect.x as int) as i32,
            y: px(rect.y as int) as i32,
            w: px(rect.w as int) as i32,
            h: px(rect.h as int) as i32,
        }
    }

    /// The rectangle in whole pixels.
    pub fn from_ax(rect: &Rect) -> (r: RectPx)
        ensures
            r == RectPx::of_rect(*rect),
    {
        RectPx { x: px_exec(rect.x), y: px_exec(rect.y), w: px_exec(rect.w), h: px_exec(rect.h) }
    }

    /// The point in the middle of the rectangle.
    pub open spec fn middle(self) -> Point {
        Point {
            x: ((self.x + half(self.w as int)) * UNITS_PER_POINT) as i64,
            y: ((self.y + half(self.h as int)) * UNITS_PER_POINT) as i64,
        }
    }

    /// The point in the middle of the rectangle.
    pub fn center(&self) -> (r: Point)
        ensures
            r == self.middle(),
            r.x == (self.x + half(self.w as int)) * UNITS_PER_POINT,
            r.y == (self.y + half(self.h as int)) * UNITS_PER_POINT,
    {
        Point {
            x: (self.x as i64 + half_exec(self.w)) * UNITS_PER_POINT,
            y: (self.y as i64 + half_exec(self.h)) * UNITS_PER_POINT,
        }
    }
}

fn half_exec(v: i32) -> (r: i64)
    ensures
        r == half(v as int),
        i32::MIN <= r <= i32::MAX,
{
    if v >= 0 {
        v as i64 / 2
    } else {
        -(-(v as i64) / 2)
    }
}

/// Whether a shift is within a tolerance.
pub open spec fn small(d: int, eps: int) -> bool {
    -eps <= d <= eps
}

impl RectDelta {
    /// Whether every component is within a tolerance.
    pub open spec fn within(self, eps: int) -> bool {
        &&& small(self.dx as int, eps)
        &&& small(self.dy as int, eps)
        &&& small(self.dw as int, eps)
        &&& small(self.dh as int, eps)
    }

    /// Whether nothing differs.
    pub open spec fn nothing(self) -> bool {
        self.dx == 0 && self.dy == 0 && self.dw == 0 && self.dh == 0
    }
}

fn small_exec(d: i64, eps: i32) -> (r: bool)
    ensures
        r == small(d as int, eps as int),
{
    -(eps as i64) <= d && d <= eps as i64
}

/// Whether every component of a delta is within a tolerance.
pub fn frame_within_eps(delta: &RectDelta, eps: i32) -> (r: bool)
    ensures
        r == delta.within(eps as int),
{
    small_exec(delta.dx, eps) && small_exec(delta.dy, eps) && small_exec(delta.dw, eps)
        && small_exec(delta.dh, eps)
}

/// Whether nothing differs.
pub fn delta_is_zero(delta: &RectDelta) -> (r: bool)
    ensures
        r == delta.nothing(),
{
    delta.dx == 0 && delta.dy == 0 && delta.dw == 0 && delta.dh == 0
}

/// Whether two rectangles match within a tolerance.
pub open spec fn px_match(actual: RectPx, expected: RectPx, eps: int) -> bool {
    expected.delta_to(actual).within(eps)
}

/// Whether two rectangles match within a tolerance.
pub fn rect_matches(actual: RectPx, expected: RectPx, eps: i32) -> (r: bool)
    ensures
        r == px_match(actual, expected, eps as int),
{
    let delta = expected.delta(&actual);
    frame_within_eps(&delta, eps)
}

/// Four numbers between angle brackets.
pub open spec fn quad_text(a: int, b: int, c: int, d: int) -> Seq<char> {
    "<"@ + dec_int(a) + ","@ + dec_int(b) + ","@ + dec_int(c) + ","@ + dec_int(d) + ">"@
}

fn quad(a: i64, b: i64, c: i64, d: i64) -> (s: String)
    ensures
        s@ == quad_text(a as int, b as int, c as int, d as int),
{
    let mut s = "<".to_owned();
    s.append(decimal_signed(a).as_str());
    s.append(",");
    s.append(decimal_signed(b).as_str());
    s.append(",");
    s.append(decimal_signed(c).as_str());
    s.append(",");
    s.append(decimal_signed(d).as_str());
    s.append(">");
    s
}

impl RectPx {
    /// The rectangle in messages.
    pub open spec fn text(self) -> Seq<char> {
        quad_text(self.x as int, self.y as int, self.w as int, self.h as int)
    }
}

impl RectDelta {
    /// The delta in messages.
    pub open spec fn text(self) -> Seq<char> {
        quad_text(self.dx as int, self.dy as int, self.dw as int, self.dh as int)
    }
}

/// The rectangle in messages.
pub fn format_rect(rect: RectPx) -> (s: String)
    ensures
        s@ == rect.text(),
{
    quad(rect.x as i64, rect.y as i64, rect.w as i64, rect.h as i64)
}

/// The delta in messages.
pub fn format_delta(delta: RectDelta) -> (s: String)
    ensures
        s@ == delta.text(),
{
    quad(delta.dx, delta.dy, delta.dw, delta.dh)
}

/// A number of hundredths with two decimals.
pub open spec fn centi_text(v: u32) -> Seq<char> {
    dec((v / 100) as nat) + "."@ + dec((v / 10 % 10) as nat) + dec((v % 10) as nat)
}

fn centi(v: u32) -> (s: String)
    ensures
        s@ == centi_text(v),
{
    let mut s = decimal((v / 100) as u64);
    s.append(".");
    s.append(decimal((v / 10 % 10) as u64).as_str());
    s.append(decimal((v % 10) as u64).as_str());
    s
}

/// One of the two extra parts of a mismatch: how far a raw frame is off.
pub open spec fn extra_part(name: Seq<char>, raw: Option<RectPx>, actual: RectPx) -> Seq<char> {
    match raw {
        Some(rect) => if actual.delta_to(rect).nothing() {
            Seq::empty()
        } else {
            name + actual.delta_to(rect).text()
        },
        None => Seq::empty(),
    }
}

fn append_extra(s: &mut String, name: &str, raw: Option<RectPx>, actual: RectPx)
    ensures
        final(s)@ == old(s)@ + extra_part(name@, raw, actual),
{
    if let Some(rect) = raw {
        let delta = actual.delta(&rect);
        if !delta_is_zero(&delta) {
            s.append(name);
            s.append(format_delta(delta).as_str());
        }
    }
    assert(s@ =~= old(s)@ + extra_part(name@, raw, actual));
}

/// How far the raw frames are off, where they are.
pub open spec fn extras_text(frames: Frames, actual: RectPx) -> Seq<char> {
    extra_part(" ax_delta="@, frames.ax, actual) + extra_part(" cg_delta="@, frames.cg, actual)
}

/// How far the raw frames are off, where they are.
pub fn frame_extras(frames: &Frames, actual: RectPx) -> (s: String)
    ensures
        s@ == extras_text(*frames, actual),
{
    let mut s = String::new();
    append_extra(&mut s, " ax_delta=", frames.ax, actual);
    append_extra(&mut s, " cg_delta=", frames.cg, actual);
    assert(s@ =~= extras_text(*frames, actual));
    s
}

/// How the message about a mismatched frame begins.
pub open spec fn mismatch_head(case: Seq<char>, scale_centi: u32, eps: i32, expected: RectPx) -> Seq<
    char,
> {
    "case=<"@ + case + "> scale=<"@ + centi_text(scale_centi) + "> eps=<"@ + dec_int(eps as int)
        + "> expected="@ + expected.text()
}

fn mismatch_start(case: &str, scale_centi: u32, eps: i32, expected: RectPx) -> (s: String)
    ensures
        s@ == mismatch_head(case@, scale_centi, eps, expected),
{
    let mut s = "case=<".to_owned();
    s.append(case);
    s.append("> scale=<");
    s.append(centi(scale_centi).as_str());
    s.append("> eps=<");
    s.append(decimal_signed(eps as i64).as_str());
    s.append("> expected=");
    s.append(format_rect(expected).as_str());
    s
}

/// The message about a mismatched frame.
pub open spec fn mismatch_text(case: Seq<char>, expected: RectPx, frames: Frames, eps: i32) -> Seq<
    char,
> {
    mismatch_head(case, frames.scale_centi, eps, expected) + " got="@ + frames.authoritative.text()
        + " delta="@ + expected.delta_to(frames.authoritative).text() + extras_text(
        frames,
        frames.authoritative,
    )
}

/// Fail unless the observed frame matches the expected one within `eps` pixels.
pub fn assert_frame_matches(case: &str, expected: RectPx, frames: &Frames, eps: i32) -> (r: Result<
    (),
    Error,
>)
    ensures
        r is Ok <==> px_match(frames.authoritative, expected, eps as int),
        r is Err ==> fails_with(r, mismatch_text(case@, expected, *frames, eps)),
{
    let actual = frames.authoritative;
    let delta = expected.delta(&actual);
    if frame_within_eps(&delta, eps) {
        return Ok(());
    }
    let mut s = mismatch_start(case, frames.scale_centi, eps, expected);
    s.append(" got=");
    s.append(format_rect(actual).as_str());
    s.append(" delta=");
    s.append(format_delta(delta).as_str());
    s.append(frame_extras(frames, actual).as_str());
    Err(Error::InvalidState(s))
}

/// How a wait for the world goes.
#[derive(Debug, Clone, Copy, PartialEq, Eq, Structural)]
pub struct WaitConfig {
    /// Allowance in milliseconds.
    pub overall_ms: u64,
    /// Pause between looks, in milliseconds.
    pub idle_ms: u64,
    /// Most events that are looked at.
    pub max_events: u32,
}

/// The usual wait: pauses of at least five milliseconds.
pub fn default_wait_config(timeout_ms: u64, poll_interval_ms: u64) -> (r: WaitConfig)
    ensures
        r == (WaitConfig {
            overall_ms: timeout_ms,
            idle_ms: if poll_interval_ms < 5 {
                5
            } else {
                poll_interval_ms
            },
            max_events: 512,
        }),
{
    WaitConfig {
        overall_ms: timeout_ms,
        idle_ms: if poll_interval_ms < 5 {
            5
        } else {
            poll_interval_ms
        },
        max_events: 512,
    }
}

/// The message about a failed wait.
pub open spec fn wait_failure_text(case: Seq<char>, why: Seq<char>) -> Seq<char> {
    "case="@ + case + " wait_error="@ + why
}

/// The error for a failed wait.
pub fn wait_failure(case: &str, why: &str) -> (r: Error)
    ensures
        is_invalid(r, wait_failure_text(case@, why@)),
{
    let mut s = "case=".to_owned();
    s.append(case);
    s.append(" wait_error=");
    s.append(why);
    Error::InvalidState(s)
}

/// Paths of artifacts in messages.
pub open spec fn artifacts_text(paths: Seq<Seq<char>>) -> Seq<char> {
    if paths.len() == 0 {
        "-"@
    } else {
        joined(paths, ","@)
    }
}

/// Paths of artifacts in messages.
pub fn format_artifacts(paths: &Vec<String>) -> (s: String)
    ensures
        s@ == artifacts_text(texts(paths@)),
{
    if paths.len() == 0 {
        "-".to_owned()
    } else {
        join(paths, ",")
    }
}

/// Frame and delta in the message of a placement case.
pub open spec fn observed_text(expected: RectPx, actual: Option<RectPx>) -> Seq<char> {
    match actual {
        Some(rect) => " got="@ + rect.text() + " delta="@ + expected.delta_to(rect).text(),
        None => " got=<n/a,n/a,n/a,n/a> delta=<n/a,n/a,n/a,n/a>"@,
    }
}

/// The message of a failed placement case.
pub open spec fn frame_failure_text(
    case: Seq<char>,
    expected: RectPx,
    actual: Option<RectPx>,
    scale_centi: u32,
    eps: i32,
    artifacts: Seq<Seq<char>>,
    info: Seq<char>,
) -> Seq<char> {
    mismatch_head(case, scale_centi, eps, expected) + observed_text(expected, actual) + " info="@
        + info + " artifacts="@ + artifacts_text(artifacts)
}

/// The message of a failed placement case.
pub fn format_frame_failure(
    case: &str,
    expected: RectPx,
    actual: Option<RectPx>,
    scale_centi: u32,
    eps: i32,
    artifacts: &Vec<String>,
    info: &str,
) -> (s: String)
    ensures
        s@ == frame_failure_text(
            case@,
            expected,
            actual,
            scale_centi,
            eps,
            texts(artifacts@),
            info@,
        ),
{
    let mut s = mismatch_start(case, scale_centi, eps, expected);
    let ghost head = s@;
    match actual {
        Some(rect) => {
            let mut seen = " got=".to_owned();
            seen.append(format_rect(rect).as_str());
            seen.append(" delta=");
            seen.append(format_delta(expected.delta(&rect)).as_str());
            s.append(seen.as_str());
        },
        None => {
            s.append(" got=<n/a,n/a,n/a,n/a> delta=<n/a,n/a,n/a,n/a>");
        },
    }
    s.append(" info=");
    s.append(info);
    s.append(" artifacts=");
    s.append(format_artifacts(artifacts).as_str());
    s
}

/// The frame that counts and the scale, or nothing at plain scale.
pub fn frame_actual_and_scale(frames: Option<Frames>) -> (r: (Option<RectPx>, u32))
    ensures
        r == (match frames {
            Some(seen) => (Some(seen.authoritative), seen.scale_centi),
            None => (None::<RectPx>, 100u32),
        }),
{
    match frames {
        Some(seen) => (Some(seen.authoritative), seen.scale_centi),
        None => (None, 100),
    }
}

/// The cell of a grid on the screen that a window stands on.
pub open spec fn cell_on_screen(
    screens: &ScreenLayout,
    frames: Frames,
    grid: GridCell,
) -> Option<RectPx> {
    match screens.screen_for(frames.authoritative.middle()) {
        Some(screen) => Some(
            RectPx::of_rect(cell_rect(screen.visible, grid.cols, grid.rows, grid.col, grid.row)),
        ),
        None => None,
    }
}

/// A cell of a grid.
#[derive(Debug, Clone, Copy, PartialEq, Eq, Structural)]
pub struct GridCell {
    /// Columns of the grid.
    pub cols: u32,
    /// Rows of the grid.
    pub rows: u32,
    /// Column of the cell.
    pub col: u32,
    /// Row of the cell.
    pub row: u32,
}

impl GridCell {
    /// Whether the cell lies in its grid.
    pub open spec fn in_grid(self) -> bool {
        self.col < tiles(self.cols) && self.row < tiles(self.rows)
    }
}

/// The rectangle of a cell on the screen that a window stands on.
pub fn grid_rect_from_frames(screens: &ScreenLayout, frames: &Frames, grid: GridCell) -> (r: Result<
    RectPx,
    Error,
>)
    requires
        screens.on_desktop(),
        grid.in_grid(),
    ensures
        match cell_on_screen(screens, *frames, grid) {
            Some(rect) => r == Ok::<RectPx, Error>(rect),
            None => fails_with(r, "visible frame not resolved"@),
        },
{
    match screens.screen_at(frames.authoritative.center()) {
        Some(screen) => {
            assert(screen.visible.on_desktop()) by {
                crate::screen::screen_for_is_on_desktop(*screens, frames.authoritative.middle());
            }
            let cell = screen.visible.grid_cell(grid.cols, grid.rows, grid.col, grid.row);
            Ok(RectPx::from_ax(&cell))
        },
        None => Err(Error::invalid("visible frame not resolved")),
    }
}

/// Rectangles match themselves, and matching goes both ways.
pub proof fn px_match_is_reflexive_and_symmetric(a: RectPx, b: RectPx, eps: int)
    requires
        0 <= eps,
    ensures
        px_match(a, a, eps),
        px_match(a, b, eps) <==> px_match(b, a, eps),
{
}

} // verus!
