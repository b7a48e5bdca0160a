//! Inspection of displays and of the windows that Hotki owns.
//!
//! Coordinates are global, with the origin at the top left, in the fixed-point
//! units of the geometry module.

use vstd::prelude::*;
use vstd::string::*;

use crate::geom::{Rect, COORD_LIMIT, UNITS_PER_POINT};
use crate::smoketest::error::{fails_with, is_invalid, Error};
use crate::text::{
    bool_text, bool_word, dec, dec_int, decimal, decimal_signed, join, joined, option_dump,
    option_text, text_eq, texts,
};

verus! {

/// A window of the session.
#[derive(Debug)]
pub struct WindowSnapshot {
    /// Process of the window.
    pub pid: i32,
    /// Identifier of the window.
    pub id: u32,
    /// Title of the window.
    pub title: String,
    /// Layer of the window.
    pub layer: i32,
    /// Whether the window is on screen.
    pub is_on_screen: bool,
    /// Where the window is.
    pub bounds: Rect,
    /// The display that the window is on.
    pub display_id: Option<u32>,
}

impl Clone for WindowSnapshot {
    fn clone(&self) -> (r: Self)
        ensures
            r == *self,
    {
        WindowSnapshot {
            pid: self.pid,
            id: self.id,
            title: self.title.clone(),
            layer: self.layer,
            is_on_screen: self.is_on_screen,
            bounds: self.bounds,
            display_id: self.display_id,
        }
    }
}

impl WindowSnapshot {
    /// Right edge.
    pub fn max_x(&self) -> (r: i128)
        ensures
            r == self.bounds.x + self.bounds.w,
    {
        self.bounds.x as i128 + self.bounds.w as i128
    }

    /// Lower edge.
    pub fn max_y(&self) -> (r: i128)
        ensures
            r == self.bounds.y + self.bounds.h,
    {
        self.bounds.y as i128 + self.bounds.h as i128
    }
}

/// A display.
#[derive(Debug, Clone, Copy, PartialEq, Eq, Structural)]
pub struct DisplayFrame {
    /// Identifier of the display.
    pub id: u32,
    /// The whole display.
    pub frame: Rect,
    /// Top of the visible part.
    pub visible_y: i64,
    /// Height of the visible part.
    pub visible_height: i64,
}

/// Whether every display has coordinates that can be computed with.
pub open spec fn displays_bounded(displays: Seq<DisplayFrame>) -> bool {
    forall|i: int|
        0 <= i < displays.len() ==> {
            &&& (#[trigger] displays[i]).frame.bounded()
            &&& -COORD_LIMIT <= displays[i].visible_y <= COORD_LIMIT
            &&& -COORD_LIMIT <= displays[i].visible_height <= COORD_LIMIT
        }
}

/// Whether the middle of a rectangle lies in a display, edges included.
pub open spec fn middle_in(display: DisplayFrame, rect: Rect) -> bool {
    let f = display.frame;
    &&& 2 * f.x <= 2 * rect.x + rect.w <= 2 * (f.x + f.w)
    &&& 2 * f.y <= 2 * rect.y + rect.h <= 2 * (f.y + f.h)
}

/// Whether the middle of a rectangle lies in a display, edges included.
pub fn point_in_display(display: &DisplayFrame, rect: &Rect) -> (r: bool)
    ensures
        r == middle_in(*display, *rect),
{
    let cx: i128 = 2 * rect.x as i128 + rect.w as i128;
    let cy: i128 = 2 * rect.y as i128 + rect.h as i128;
    let f = display.frame;
    2 * f.x as i128 <= cx && cx <= 2 * (f.x as i128 + f.w as i128) && 2 * f.y as i128 <= cy && cy
        <= 2 * (f.y as i128 + f.h as i128)
}

/// How much two spans have in common.
pub open spec fn common(a: int, a_len: int, b: int, b_len: int) -> int {
    let low = if a >= b {
        a
    } else {
        b
    };
    let high = if a + a_len <= b + b_len {
        a + a_len
    } else {
        b + b_len
    };
    if high > low {
        high - low
    } else {
        0
    }
}

fn common_exec(a: i64, a_len: i64, b: i64, b_len: i64) -> (r: i128)
    ensures
        r == common(a as int, a_len as int, b as int, b_len as int),
{
    let low: i128 = if a >= b {
        a as i128
    } else {
        b as i128
    };
    let a_end: i128 = a as i128 + a_len as i128;
    let b_end: i128 = b as i128 + b_len as i128;
    let high: i128 = if a_end <= b_end {
        a_end
    } else {
        b_end
    };
    if high > low {
        high - low
    } else {
        0
    }
}

/// The area that a rectangle and a display have in common.
pub open spec fn overlap(rect: Rect, display: DisplayFrame) -> int {
    common(rect.x as int, rect.w as int, display.frame.x as int, display.frame.w as int) * common(
        rect.y as int,
        rect.h as int,
        display.frame.y as int,
        display.frame.h as int,
    )
}

/// The area that a rectangle and a display have in common.
pub fn overlap_area(rect: &Rect, display: &DisplayFrame) -> (r: i128)
    requires
        rect.bounded(),
        display.frame.bounded(),
    ensures
        r == overlap(*rect, *display),
        r >= 0,
{
    let w: i128 = common_exec(rect.x, rect.w, display.frame.x, display.frame.w);
    let h: i128 = common_exec(rect.y, rect.h, display.frame.y, display.frame.h);
    assert(0 <= w <= 2 * COORD_LIMIT && 0 <= h <= 2 * COORD_LIMIT);
    assert(0 <= w * h <= 4 * COORD_LIMIT * COORD_LIMIT) by (nonlinear_arith)
        requires
            0 <= w <= 2 * COORD_LIMIT,
            0 <= h <= 2 * COORD_LIMIT,
    ;
    w * h
}

/// Whether position `i` holds the display to take for a rectangle that has its
/// middle in none: it has the largest area in common, and no later one has as much.
pub open spec fn widest(displays: Seq<DisplayFrame>, rect: Rect, i: int) -> bool {
    &&& 0 <= i < displays.len()
    &&& overlap(rect, displays[i]) > 0
    &&& forall|j: int|
        0 <= j < displays.len() ==> overlap(rect, #[trigger] displays[j]) <= overlap(
            rect,
            displays[i],
        )
    &&& forall|j: int|
        i < j < displays.len() ==> overlap(rect, #[trigger] displays[j]) < overlap(
            rect,
            displays[i],
        )
}

/// The area of a rectangle.
pub open spec fn area_of(rect: Rect) -> int {
    if rect.w > 0 && rect.h > 0 {
        rect.w * rect.h
    } else {
        0
    }
}

/// Whether a display holds more than half of a rectangle.
pub open spec fn holds_most(display: DisplayFrame, rect: Rect) -> bool {
    2 * overlap(rect, display) > area_of(rect)
}

fn has_most(display: &DisplayFrame, rect: &Rect) -> (r: bool)
    requires
        rect.bounded(),
        display.frame.bounded(),
    ensures
        r == holds_most(*display, *rect),
{
    let shared: i128 = overlap_area(rect, display);
    let (w, h): (i128, i128) = (rect.w as i128, rect.h as i128);
    assert(w > 0 && h > 0 ==> 0 <= w * h <= COORD_LIMIT * COORD_LIMIT) by (nonlinear_arith)
        requires
            w <= COORD_LIMIT,
            h <= COORD_LIMIT,
    ;
    let area: i128 = if w > 0 && h > 0 {
        w * h
    } else {
        0
    };
    shared > area / 2
}

/// Whether a display is the one that a rectangle is on: the first that holds most of
/// it, else the first that holds its middle, else the one with the largest area in
/// common.
pub open spec fn is_display_for(displays: Seq<DisplayFrame>, rect: Rect, found: Option<u32>) -> bool {
    if exists|i: int| 0 <= i < displays.len() && holds_most(#[trigger] displays[i], rect) {
        exists|i: int|
            {
                &&& 0 <= i < displays.len()
                &&& holds_most(#[trigger] displays[i], rect)
                &&& forall|j: int| 0 <= j < i ==> !holds_most(#[trigger] displays[j], rect)
                &&& found == Some(displays[i].id)
            }
    } else if exists|i: int| 0 <= i < displays.len() && middle_in(#[trigger] displays[i], rect) {
        exists|i: int|
            {
                &&& 0 <= i < displays.len()
                &&& middle_in(#[trigger] displays[i], rect)
                &&& forall|j: int| 0 <= j < i ==> !middle_in(#[trigger] displays[j], rect)
                &&& found == Some(displays[i].id)
            }
    } else {
        match found {
            Some(id) => exists|i: int| #[trigger] widest(displays, rect, i) && displays[i].id == id,
            None => forall|i: int|
                0 <= i < displays.len() ==> overlap(rect, #[trigger] displays[i]) <= 0,
        }
    }
}

/// The display that a rectangle is on.
pub fn display_for_rect(rect: &Rect, displays: &Vec<DisplayFrame>) -> (r: Option<u32>)
    requires
        rect.bounded(),
        displays_bounded(displays@),
    ensures
        is_display_for(displays@, *rect, r),
{
    let mut m: usize = 0;
    while m < displays.len()
        invariant
            m <= displays@.len(),
            rect.bounded(),
            displays_bounded(displays@),
            forall|j: int| 0 <= j < m ==> !holds_most(#[trigger] displays@[j], *rect),
        decreases displays@.len() - m,
    {
        assert(displays@[m as int].frame.bounded());
        if has_most(&displays[m], rect) {
            assert(holds_most(displays@[m as int], *rect));
            return Some(displays[m].id);
        }
        m = m + 1;
    }
    let mut i: usize = 0;
    while i < displays.len()
        invariant
            i <= displays@.len(),
            forall|j: int| 0 <= j < displays@.len() ==> !holds_most(#[trigger] displays@[j], *rect),
            forall|j: int| 0 <= j < i ==> !middle_in(#[trigger] displays@[j], *rect),
        decreases displays@.len() - i,
    {
        if point_in_display(&displays[i], rect) {
            assert(middle_in(displays@[i as int], *rect));
            return Some(displays[i].id);
        }
        i = i + 1;
    }
    let mut best: Option<usize> = None;
    let mut area: i128 = 0;
    let mut k: usize = 0;
    while k < displays.len()
        invariant
            k <= displays@.len(),
            rect.bounded(),
            displays_bounded(displays@),
            area >= 0,
            match best {
                Some(b) => {
                    &&& b < k
                    &&& area > 0
                    &&& area == overlap(*rect, displays@[b as int])
                    &&& forall|j: int|
                        0 <= j < k ==> overlap(*rect, #[trigger] displays@[j]) <= area
                    &&& forall|j: int| b < j < k ==> overlap(*rect, #[trigger] displays@[j]) < area
                },
                None => area == 0 && forall|j: int|
                    0 <= j < k ==> overlap(*rect, #[trigger] displays@[j]) <= 0,
            },
        decreases displays@.len() - k,
    {
        assert(displays@[k as int].frame.bounded());
        let a: i128 = overlap_area(rect, &displays[k]);
        if a > 0 && a >= area {
            best = Some(k);
            area = a;
        }
        k = k + 1;
    }
    match best {
        Some(b) => {
            assert(widest(displays@, *rect, b as int));
            Some(displays[b].id)
        },
        None => None,
    }
}

/// The display that holds the majority of a rectangle is the one that it is on.
pub proof fn the_majority_decides_the_display(
    displays: Seq<DisplayFrame>,
    rect: Rect,
    found: Option<u32>,
    i: int,
)
    requires
        is_display_for(displays, rect, found),
        0 <= i < displays.len(),
        holds_most(displays[i], rect),
        forall|j: int| 0 <= j < displays.len() && j != i ==> !holds_most(#[trigger] displays[j], rect),
    ensures
        found == Some(displays[i].id),
{
}

/// What the window server lists about a window.
#[derive(Debug)]
pub struct CgWindow {
    /// Process of the window.
    pub owner_pid: Option<i32>,
    /// Name of the process.
    pub owner_name: Option<String>,
    /// Title of the window.
    pub name: Option<String>,
    /// Number of the window.
    pub number: Option<u32>,
    /// Layer of the window.
    pub layer: Option<i32>,
    /// Whether the window is on screen.
    pub onscreen: Option<bool>,
    /// Where the window is.
    pub bounds: Option<Rect>,
}

/// Whether every listed window has coordinates that can be computed with.
pub open spec fn windows_bounded(windows: Seq<CgWindow>) -> bool {
    forall|i: int|
        0 <= i < windows.len() ==> ((#[trigger] windows[i]).bounds matches Some(b) ==> b.bounded())
}

/// The title of a window, or else the name of its process.
pub open spec fn shown_title(w: CgWindow) -> Seq<char> {
    if w.name is Some && w.name->0@.len() > 0 {
        w.name->0@
    } else {
        match w.owner_name {
            Some(owner) => owner@,
            None => Seq::empty(),
        }
    }
}

/// Whether a snapshot is what a listed window of the session comes to.
pub open spec fn snapshot_of(
    w: CgWindow,
    pid: i32,
    displays: Seq<DisplayFrame>,
    s: WindowSnapshot,
) -> bool {
    &&& s.pid == pid
    &&& s.id == w.number.unwrap_or(0)
    &&& s.title@ == shown_title(w)
    &&& s.layer == (match w.layer {
        Some(layer) => layer as int,
        None => -1,
    })
    &&& s.is_on_screen == w.onscreen.unwrap_or(false)
    &&& match w.bounds {
        Some(bounds) => s.bounds == bounds && is_display_for(displays, bounds, s.display_id),
        None => s.bounds == (Rect { x: 0, y: 0, w: 0, h: 0 }) && s.display_id is None,
    }
}

/// Positions of the windows of a process among those listed.
pub open spec fn owned_positions(windows: Seq<CgWindow>, pid: i32) -> Seq<int>
    decreases windows.len(),
{
    if windows.len() == 0 {
        Seq::empty()
    } else if windows.last().owner_pid == Some(pid) {
        owned_positions(windows.drop_last(), pid).push(windows.len() - 1)
    } else {
        owned_positions(windows.drop_last(), pid)
    }
}

fn title_of(w: &CgWindow) -> (s: String)
    ensures
        s@ == shown_title(*w),
{
    if let Some(name) = &w.name {
        if name.as_str().unicode_len() > 0 {
            return name.clone();
        }
    }
    match &w.owner_name {
        Some(owner) => owner.clone(),
        None => String::new(),
    }
}

fn snapshot_window(w: &CgWindow, pid: i32, displays: &Vec<DisplayFrame>) -> (s: WindowSnapshot)
    requires
        displays_bounded(displays@),
        w.bounds matches Some(b) ==> b.bounded(),
    ensures
        snapshot_of(*w, pid, displays@, s),
{
    let (bounds, display_id): (Rect, Option<u32>) = match w.bounds {
        Some(b) => (b, display_for_rect(&b, displays)),
        None => (Rect { x: 0, y: 0, w: 0, h: 0 }, None),
    };
    WindowSnapshot {
        pid,
        id: match w.number {
            Some(n) => n,
            None => 0,
        },
        title: title_of(w),
        layer: match w.layer {
            Some(l) => l,
            None => -1,
        },
        is_on_screen: match w.onscreen {
            Some(b) => b,
            None => false,
        },
        bounds,
        display_id,
    }
}

/// The windows of the session, in the order in which they are listed.
pub fn collect_hotki_windows(
    listed: &Vec<CgWindow>,
    pid: i32,
    displays: &Vec<DisplayFrame>,
) -> (r: Vec<WindowSnapshot>)
    requires
        displays_bounded(displays@),
        windows_bounded(listed@),
    ensures
        r@.len() == owned_positions(listed@, pid).len(),
        forall|k: int|
            0 <= k < r@.len() ==> snapshot_of(
                listed@[owned_positions(listed@, pid)[k]],
                pid,
                displays@,
                #[trigger] r@[k],
            ),
{
    let mut out: Vec<WindowSnapshot> = Vec::new();
    let mut i: usize = 0;
    while i < listed.len()
        invariant
            i <= listed@.len(),
            displays_bounded(displays@),
            windows_bounded(listed@),
            out@.len() == owned_positions(listed@.take(i as int), pid).len(),
            forall|k: int|
                0 <= k < out@.len() ==> snapshot_of(
                    listed@[owned_positions(listed@.take(i as int), pid)[k]],
                    pid,
                    displays@,
                    #[trigger] out@[k],
                ),
        decreases listed@.len() - i,
    {
        let ghost now = listed@.take(i + 1);
        assert(now.drop_last() =~= listed@.take(i as int));
        assert(now.last() == listed@[i as int]);
        let owned = match listed[i].owner_pid {
            Some(p) => p == pid,
            None => false,
        };
        if owned {
            assert(listed@[i as int].bounds matches Some(b) ==> b.bounded());
            out.push(snapshot_window(&listed[i], pid, displays));
        }
        i = i + 1;
    }
    assert(listed@.take(i as int) =~= listed@);
    out
}

/// The display of the foremost ordinary window.
pub open spec fn is_focused_display(
    listed: Seq<CgWindow>,
    displays: Seq<DisplayFrame>,
    found: Option<u32>,
) -> bool {
    if exists|i: int| 0 <= i < listed.len() && (#[trigger] listed[i]).layer == Some(0i32) {
        exists|i: int|
            {
                &&& 0 <= i < listed.len()
                &&& (#[trigger] listed[i]).layer == Some(0i32)
                &&& forall|j: int| 0 <= j < i ==> (#[trigger] listed[j]).layer != Some(0i32)
                &&& match listed[i].bounds {
                    Some(bounds) => is_display_for(displays, bounds, found),
                    None => found is None,
                }
            }
    } else {
        found is None
    }
}

/// The display of the foremost ordinary window.
pub fn focused_display_id(listed: &Vec<CgWindow>, displays: &Vec<DisplayFrame>) -> (r: Option<u32>)
    requires
        displays_bounded(displays@),
        windows_bounded(listed@),
    ensures
        is_focused_display(listed@, displays@, r),
{
    let mut i: usize = 0;
    while i < listed.len()
        invariant
            i <= listed@.len(),
            displays_bounded(displays@),
            windows_bounded(listed@),
            forall|j: int| 0 <= j < i ==> (#[trigger] listed@[j]).layer != Some(0i32),
        decreases listed@.len() - i,
    {
        let ordinary = match listed[i].layer {
            Some(l) => l == 0,
            None => false,
        };
        if ordinary {
            assert(listed@[i as int].layer == Some(0i32));
            assert(listed@[i as int].bounds matches Some(b) ==> b.bounded());
            return match listed[i].bounds {
                Some(bounds) => display_for_rect(&bounds, displays),
                None => None,
            };
        }
        i = i + 1;
    }
    None
}

/// A screen with the origin at the bottom left, as AppKit reports it.
#[derive(Debug, Clone, Copy, PartialEq, Eq, Structural)]
pub struct AppKitScreen {
    /// The whole screen.
    pub frame: Rect,
    /// The part without menu bar and Dock.
    pub visible: Rect,
}

/// The highest edge of the screens.
pub open spec fn global_top(screens: Seq<AppKitScreen>) -> int
    decreases screens.len(),
{
    if screens.len() == 0 {
        0
    } else {
        let top = screens.last().frame.y + screens.last().frame.h;
        if screens.len() == 1 || top > global_top(screens.drop_last()) {
            top
        } else {
            global_top(screens.drop_last())
        }
    }
}

/// Whether two coordinates differ by at most one point.
pub open spec fn within_point(a: int, b: int) -> bool {
    -UNITS_PER_POINT <= a - b <= UNITS_PER_POINT
}

/// Whether a screen is a display, once the axis is turned around.
pub open spec fn same_frame(display: DisplayFrame, screen: AppKitScreen, top: int) -> bool {
    &&& within_point(display.frame.x as int, screen.frame.x as int)
    &&& within_point(display.frame.y as int, top - (screen.frame.y + screen.frame.h))
    &&& within_point(display.frame.w as int, screen.frame.w as int)
    &&& within_point(display.frame.h as int, screen.frame.h as int)
}

fn near_point(a: i128, b: i128) -> (r: bool)
    requires
        -0x1_0000_0000_0000_0000_0000i128 <= a <= 0x1_0000_0000_0000_0000_0000i128,
        -0x1_0000_0000_0000_0000_0000i128 <= b <= 0x1_0000_0000_0000_0000_0000i128,
    ensures
        r == within_point(a as int, b as int),
{
    let d: i128 = a - b;
    -(UNITS_PER_POINT as i128) <= d && d <= UNITS_PER_POINT as i128
}

/// Whether a screen is a display, once the axis is turned around.
pub fn same_display_frame(display: &DisplayFrame, screen: &AppKitScreen, top: i128) -> (r: bool)
    requires
        -0x2_0000_0000_0000_0000i128 <= top <= 0x2_0000_0000_0000_0000i128,
    ensures
        r == same_frame(*display, *screen, top as int),
{
    let y: i128 = top - (screen.frame.y as i128 + screen.frame.h as i128);
    near_point(display.frame.x as i128, screen.frame.x as i128) && near_point(
        display.frame.y as i128,
        y,
    ) && near_point(display.frame.w as i128, screen.frame.w as i128) && near_point(
        display.frame.h as i128,
        screen.frame.h as i128,
    )
}

fn top_of(screens: &Vec<AppKitScreen>) -> (r: i128)
    ensures
        r == global_top(screens@),
        -0x2_0000_0000_0000_0000i128 <= r <= 0x2_0000_0000_0000_0000i128,
{
    let mut top: i128 = 0;
    let mut i: usize = 0;
    while i < screens.len()
        invariant
            i <= screens@.len(),
            top == global_top(screens@.take(i as int)),
            -0x2_0000_0000_0000_0000i128 <= top <= 0x2_0000_0000_0000_0000i128,
        decreases screens@.len() - i,
    {
        let ghost now = screens@.take(i + 1);
        assert(now.drop_last() =~= screens@.take(i as int));
        assert(now.last() == screens@[i as int]);
        let edge: i128 = screens[i].frame.y as i128 + screens[i].frame.h as i128;
        if i == 0 || edge > top {
            top = edge;
        }
        i = i + 1;
    }
    assert(screens@.take(i as int) =~= screens@);
    top
}

/// Top and height of the visible part of a display, with the origin at the top
/// left: those of the first screen that is the display.
pub fn visible_frame_for_display(display: &DisplayFrame, screens: &Vec<AppKitScreen>) -> (r: Option<
    (i128, i64),
>)
    ensures
        match r {
            Some((y, h)) => exists|i: int|
                {
                    &&& 0 <= i < screens@.len()
                    &&& #[trigger] same_frame(*display, screens@[i], global_top(screens@))
                    &&& forall|j: int|
                        0 <= j < i ==> !#[trigger] same_frame(
                            *display,
                            screens@[j],
                            global_top(screens@),
                        )
                    &&& y == global_top(screens@) - (screens@[i].visible.y
                        + screens@[i].visible.h)
                    &&& h == screens@[i].visible.h
                },
            None => forall|i: int|
                0 <= i < screens@.len() ==> !#[trigger] same_frame(
                    *display,
                    screens@[i],
                    global_top(screens@),
                ),
        },
{
    let top: i128 = top_of(screens);
    let mut i: usize = 0;
    while i < screens.len()
        invariant
            i <= screens@.len(),
            top == global_top(screens@),
            -0x2_0000_0000_0000_0000i128 <= top <= 0x2_0000_0000_0000_0000i128,
            forall|j: int|
                0 <= j < i ==> !#[trigger] same_frame(
                    *display,
                    screens@[j],
                    global_top(screens@),
                ),
        decreases screens@.len() - i,
    {
        if same_display_frame(display, &screens[i], top) {
            let v = screens[i].visible;
            assert(same_frame(*display, screens@[i as int], global_top(screens@)));
            return Some((top - (v.y as i128 + v.h as i128), v.h));
        }
        i = i + 1;
    }
    None
}

/// A length in points.
pub open spec fn pts(n: int) -> int {
    n * UNITS_PER_POINT
}

/// Whether a window looks like a notification.
pub open spec fn notification_like(window: WindowSnapshot, displays: Seq<DisplayFrame>) -> bool {
    &&& window.layer >= 0
    &&& window.bounds.w > pts(24)
    &&& window.bounds.h > pts(16)
    &&& {
        ||| window.title@ == "Hotki Notification"@
        ||| {
            &&& window.display_id is Some
            &&& crate::pick::pick_where(
                displays,
                display_named(window.display_id->0),
            ) matches Some(display)
            &&& window.bounds.w <= display.frame.w
            &&& window.bounds.h <= display.frame.h
            &&& window.bounds.w >= window.bounds.h
            &&& window.bounds.w <= pts(640)
            &&& window.bounds.h <= pts(240)
            &&& window.layer > 0
        }
    }
}

/// Whether a display has an identifier.
pub open spec fn display_named(id: u32) -> spec_fn(DisplayFrame) -> bool {
    |d: DisplayFrame| d.id == id
}

fn find_display(displays: &Vec<DisplayFrame>, id: u32) -> (r: Option<DisplayFrame>)
    ensures
        r == crate::pick::pick_where(displays@, display_named(id)),
{
    let ghost p = display_named(id);
    let mut i: usize = 0;
    while i < displays.len()
        invariant
            i <= displays@.len(),
            p == display_named(id),
            forall|j: int| 0 <= j < i ==> !p(#[trigger] displays@[j]),
        decreases displays@.len() - i,
    {
        if displays[i].id == id {
            proof {
                crate::pick::first_where_at(displays@, p, i as int);
            }
            return Some(displays[i]);
        }
        i = i + 1;
    }
    proof {
        crate::pick::first_where_none(displays@, p);
    }
    None
}

/// Whether a window looks like a notification.
pub fn is_notification_candidate(window: &WindowSnapshot, displays: &Vec<DisplayFrame>) -> (r: bool)
    ensures
        r == notification_like(*window, displays@),
{
    if window.layer < 0 {
        return false;
    }
    if window.bounds.w <= 24 * UNITS_PER_POINT || window.bounds.h <= 16 * UNITS_PER_POINT {
        return false;
    }
    if text_eq(window.title.as_str(), "Hotki Notification") {
        return true;
    }
    let id: u32 = match window.display_id {
        Some(id) => id,
        None => {
            return false;
        },
    };
    match find_display(displays, id) {
        None => false,
        Some(display) => {
            window.bounds.w <= display.frame.w && window.bounds.h <= display.frame.h
                && window.bounds.w >= window.bounds.h && window.bounds.w <= 640 * UNITS_PER_POINT
                && window.bounds.h <= 240 * UNITS_PER_POINT && window.layer > 0
        },
    }
}

/// Positions of the windows that look like notifications.
pub open spec fn notification_positions(
    windows: Seq<WindowSnapshot>,
    displays: Seq<DisplayFrame>,
) -> Seq<int>
    decreases windows.len(),
{
    if windows.len() == 0 {
        Seq::empty()
    } else if notification_like(windows.last(), displays) {
        notification_positions(windows.drop_last(), displays).push(windows.len() - 1)
    } else {
        notification_positions(windows.drop_last(), displays)
    }
}

/// Positions of the windows that look like notifications.
pub fn collect_notification_windows(
    windows: &Vec<WindowSnapshot>,
    displays: &Vec<DisplayFrame>,
) -> (r: Vec<usize>)
    ensures
        r@.len() == notification_positions(windows@, displays@).len(),
        forall|k: int|
            0 <= k < r@.len() ==> #[trigger] r@[k] == notification_positions(
                windows@,
                displays@,
            )[k],
{
    let mut out: Vec<usize> = Vec::new();
    let mut i: usize = 0;
    while i < windows.len()
        invariant
            i <= windows@.len(),
            out@.len() == notification_positions(windows@.take(i as int), displays@).len(),
            forall|k: int|
                0 <= k < out@.len() ==> #[trigger] out@[k] == notification_positions(
                    windows@.take(i as int),
                    displays@,
                )[k],
        decreases windows@.len() - i,
    {
        let ghost now = windows@.take(i + 1);
        assert(now.drop_last() =~= windows@.take(i as int));
        assert(now.last() == windows@[i as int]);
        if is_notification_candidate(&windows[i], displays) {
            out.push(i);
        }
        i = i + 1;
    }
    assert(windows@.take(i as int) =~= windows@);
    out
}

/// The decimals of a part of a point, at most `n`.
pub open spec fn fraction_digits(part: int, n: nat) -> Seq<char>
    decreases n,
{
    if part <= 0 || n == 0 {
        Seq::empty()
    } else {
        dec((part * 10 / (UNITS_PER_POINT as int)) as nat) + fraction_digits(
            part * 10 % (UNITS_PER_POINT as int),
            (n - 1) as nat,
        )
    }
}

/// A length in points, as a decimal number.
pub open spec fn points_text(units: int) -> Seq<char> {
    let magnitude = if units < 0 {
        -units
    } else {
        units
    };
    let whole = (if units < 0 {
        "-"@
    } else {
        ""@
    }) + dec((magnitude / (UNITS_PER_POINT as int)) as nat);
    let part = magnitude % (UNITS_PER_POINT as int);
    if part == 0 {
        whole
    } else {
        whole + "."@ + fraction_digits(part, 10)
    }
}

fn fraction(part: u64, n: u32) -> (s: String)
    requires
        part < UNITS_PER_POINT,
    ensures
        s@ == fraction_digits(part as int, n as nat),
    decreases n,
{
    if part == 0 || n == 0 {
        return String::new();
    }
    let unit: u64 = 1024;
    let mut s = decimal(part * 10 / unit);
    s.append(fraction(part * 10 % unit, n - 1).as_str());
    s
}

/// A length in points, as a decimal number.
pub fn format_points(units: i128) -> (s: String)
    requires
        -8 * i64::MAX <= units <= 8 * i64::MAX,
    ensures
        s@ == points_text(units as int),
{
    let magnitude: u128 = if units < 0 {
        (-units) as u128
    } else {
        units as u128
    };
    let unit: u128 = 1024;
    let mut s = if units < 0 {
        "-".to_owned()
    } else {
        "".to_owned()
    };
    s.append(decimal((magnitude / unit) as u64).as_str());
    let part: u64 = (magnitude % unit) as u64;
    if part != 0 {
        s.append(".");
        s.append(fraction(part, 10).as_str());
    }
    s
}

/// An optional display as a dump shows it.
pub open spec fn display_dump(id: Option<u32>) -> Seq<char> {
    match id {
        Some(id) => option_dump(Some(id as u64)),
        None => option_dump(None),
    }
}

/// A window in messages.
pub open spec fn window_text(w: WindowSnapshot) -> Seq<char> {
    "title="@ + w.title@ + " pid="@ + dec_int(w.pid as int) + " id="@ + dec(w.id as nat)
        + " display_id="@ + display_dump(w.display_id) + " on_screen="@ + bool_word(w.is_on_screen)
        + " layer="@ + dec_int(w.layer as int) + " bounds=("@ + points_text(w.bounds.x as int)
        + ", "@ + points_text(w.bounds.y as int) + ", "@ + points_text(w.bounds.w as int) + ", "@
        + points_text(w.bounds.h as int) + ")"@
}

/// A window in messages.
pub fn describe_window(w: &WindowSnapshot) -> (s: String)
    ensures
        s@ == window_text(*w),
{
    let mut s = "title=".to_owned();
    s.append(w.title.as_str());
    s.append(" pid=");
    s.append(decimal_signed(w.pid as i64).as_str());
    s.append(" id=");
    s.append(decimal(w.id as u64).as_str());
    s.append(" display_id=");
    let shown = match w.display_id {
        Some(id) => option_text(Some(id as u64)),
        None => option_text(None),
    };
    s.append(shown.as_str());
    s.append(" on_screen=");
    s.append(bool_text(w.is_on_screen));
    s.append(" layer=");
    s.append(decimal_signed(w.layer as i64).as_str());
    s.append(" bounds=(");
    s.append(format_points(w.bounds.x as i128).as_str());
    s.append(", ");
    s.append(format_points(w.bounds.y as i128).as_str());
    s.append(", ");
    s.append(format_points(w.bounds.w as i128).as_str());
    s.append(", ");
    s.append(format_points(w.bounds.h as i128).as_str());
    s.append(")");
    s
}

/// The windows in messages.
pub open spec fn windows_text(windows: Seq<WindowSnapshot>) -> Seq<char> {
    if windows.len() == 0 {
        "<none>"@
    } else {
        joined(Seq::new(windows.len(), |i: int| window_text(windows[i])), "; "@)
    }
}

/// The windows in messages.
pub fn describe_windows(windows: &Vec<WindowSnapshot>) -> (s: String)
    ensures
        s@ == windows_text(windows@),
{
    if windows.len() == 0 {
        return "<none>".to_owned();
    }
    let mut parts: Vec<String> = Vec::new();
    let mut i: usize = 0;
    while i < windows.len()
        invariant
            i <= windows@.len(),
            parts@.len() == i,
            forall|j: int| 0 <= j < i ==> (#[trigger] parts@[j])@ == window_text(windows@[j]),
        decreases windows@.len() - i,
    {
        parts.push(describe_window(&windows[i]));
        i = i + 1;
    }
    assert(texts(parts@) =~= Seq::new(windows@.len(), |i: int| window_text(windows@[i])));
    join(&parts, "; ")
}

/// Distance from the edge of the screen at which notifications stand, in points.
pub const NOTIFICATION_MARGIN: i64 = 12;

/// Slack in comparisons of edges, in points.
pub const LAYOUT_SLOP: i64 = 2;

/// The complaint about a notification that is too tall.
pub open spec fn height_complaint(window: WindowSnapshot, tallest: int) -> Seq<char> {
    "notification height exceeds max: height="@ + points_text(window.bounds.h as int) + " max="@
        + points_text(tallest) + " window="@ + window_text(window)
}

/// Whether a notification stands at the top right of a display: the first complaint,
/// where there is one.
pub open spec fn corner_complaint(window: WindowSnapshot, display: DisplayFrame) -> Option<
    Seq<char>,
> {
    let tolerance = pts(NOTIFICATION_MARGIN + LAYOUT_SLOP);
    let right = (display.frame.x + display.frame.w) - (window.bounds.x
        + window.bounds.w);
    let top = window.bounds.y - (display.visible_y + pts(NOTIFICATION_MARGIN as int));
    let room = display.visible_height - 2 * pts(NOTIFICATION_MARGIN as int);
    let tallest = if room < pts(1) {
        pts(1)
    } else {
        room
    };
    if right > tolerance || -right > tolerance {
        Some(right_complaint(window, display, right, tolerance))
    } else if top > tolerance || -top > tolerance {
        Some(top_complaint(window, display, top, tolerance))
    } else if window.bounds.h > tallest + pts(LAYOUT_SLOP as int) {
        Some(height_complaint(window, tallest))
    } else {
        None
    }
}

/// Whether a notification stands at the top right of its display: the first
/// complaint, where there is one.
pub open spec fn notification_complaint(
    window: WindowSnapshot,
    displays: Seq<DisplayFrame>,
) -> Option<Seq<char>> {
    match window.display_id {
        None => Some("notification window "@ + dec(window.id as nat) + " missing display id"@),
        Some(id) => match crate::pick::pick_where(displays, display_named(id)) {
            None => Some(
                "display "@ + dec(id as nat) + " missing during notification check"@,
            ),
            Some(display) => corner_complaint(window, display),
        },
    }
}

/// How far apart two edges are.
pub open spec fn distance(d: int) -> int {
    if d < 0 {
        -d
    } else {
        d
    }
}

fn distance_of(d: i128) -> (r: i128)
    requires
        d > i128::MIN,
    ensures
        r == distance(d as int),
{
    if d < 0 {
        -d
    } else {
        d
    }
}

/// The complaint about a notification that is not at the right edge.
pub open spec fn right_complaint(
    window: WindowSnapshot,
    display: DisplayFrame,
    right: int,
    tolerance: int,
) -> Seq<char> {
    "notification right edge misaligned: window_max_x="@ + points_text(
        window.bounds.x + window.bounds.w,
    ) + " display_max_x="@ + points_text(display.frame.x + display.frame.w) + " delta="@
        + points_text(distance(right)) + " tolerance="@ + points_text(tolerance) + " window="@
        + window_text(window)
}

/// The complaint about a notification that is not at the top edge.
pub open spec fn top_complaint(
    window: WindowSnapshot,
    display: DisplayFrame,
    top: int,
    tolerance: int,
) -> Seq<char> {
    "notification top edge misaligned: window_y="@ + points_text(window.bounds.y as int)
        + " expected_top="@ + points_text(display.visible_y + pts(NOTIFICATION_MARGIN as int))
        + " visible_y="@ + points_text(display.visible_y as int) + " display_y="@ + points_text(
        display.frame.y as int,
    ) + " delta="@ + points_text(distance(top)) + " tolerance="@ + points_text(tolerance)
        + " window="@ + window_text(window)
}

fn right_error(window: &WindowSnapshot, display: &DisplayFrame, right: i128, tolerance: i128) -> (r:
    Error)
    requires
        -8 * i64::MAX <= right <= 8 * i64::MAX,
        -8 * i64::MAX <= tolerance <= 8 * i64::MAX,
    ensures
        is_invalid(r, right_complaint(*window, *display, right as int, tolerance as int)),
{
    let mut s = "notification right edge misaligned: window_max_x=".to_owned();
    s.append(format_points(window.max_x()).as_str());
    s.append(" display_max_x=");
    s.append(format_points(display.frame.x as i128 + display.frame.w as i128).as_str());
    s.append(" delta=");
    s.append(format_points(distance_of(right)).as_str());
    s.append(" tolerance=");
    s.append(format_points(tolerance).as_str());
    s.append(" window=");
    s.append(describe_window(window).as_str());
    Error::InvalidState(s)
}

fn top_error(window: &WindowSnapshot, display: &DisplayFrame, top: i128, tolerance: i128) -> (r:
    Error)
    requires
        -8 * i64::MAX <= top <= 8 * i64::MAX,
        -8 * i64::MAX <= tolerance <= 8 * i64::MAX,
    ensures
        is_invalid(r, top_complaint(*window, *display, top as int, tolerance as int)),
{
    let unit: i128 = UNITS_PER_POINT as i128;
    let margin: i128 = NOTIFICATION_MARGIN as i128 * unit;
    let mut s = "notification top edge misaligned: window_y=".to_owned();
    s.append(format_points(window.bounds.y as i128).as_str());
    s.append(" expected_top=");
    s.append(format_points(display.visible_y as i128 + margin).as_str());
    s.append(" visible_y=");
    s.append(format_points(display.visible_y as i128).as_str());
    s.append(" display_y=");
    s.append(format_points(display.frame.y as i128).as_str());
    s.append(" delta=");
    s.append(format_points(distance_of(top)).as_str());
    s.append(" tolerance=");
    s.append(format_points(tolerance).as_str());
    s.append(" window=");
    s.append(describe_window(window).as_str());
    Error::InvalidState(s)
}

fn height_error(window: &WindowSnapshot, tallest: i128) -> (r: Error)
    requires
        -8 * i64::MAX <= tallest <= 8 * i64::MAX,
    ensures
        is_invalid(r, height_complaint(*window, tallest as int)),
{
    let mut s = "notification height exceeds max: height=".to_owned();
    s.append(format_points(window.bounds.h as i128).as_str());
    s.append(" max=");
    s.append(format_points(tallest).as_str());
    s.append(" window=");
    s.append(describe_window(window).as_str());
    Error::InvalidState(s)
}

fn verify_corner(window: &WindowSnapshot, display: &DisplayFrame) -> (r: Result<(), Error>)
    ensures
        match corner_complaint(*window, *display) {
            None => r is Ok,
            Some(why) => fails_with(r, why),
        },
{
    let unit: i128 = UNITS_PER_POINT as i128;
    let margin: i128 = NOTIFICATION_MARGIN as i128 * unit;
    let slop: i128 = LAYOUT_SLOP as i128 * unit;
    let tolerance: i128 = margin + slop;
    let right: i128 = (display.frame.x as i128 + display.frame.w as i128) - window.max_x();
    let top: i128 = window.bounds.y as i128 - (display.visible_y as i128 + margin);
    let room: i128 = display.visible_height as i128 - 2 * margin;
    let tallest: i128 = if room < unit {
        unit
    } else {
        room
    };
    if right > tolerance || -right > tolerance {
        return Err(right_error(window, display, right, tolerance));
    }
    if top > tolerance || -top > tolerance {
        return Err(top_error(window, display, top, tolerance));
    }
    if window.bounds.h as i128 > tallest + slop {
        return Err(height_error(window, tallest));
    }
    Ok(())
}

/// Fail unless a notification stands at the top right of its display.
pub fn verify_notification_window(
    window: &WindowSnapshot,
    displays: &Vec<DisplayFrame>,
) -> (r: Result<(), Error>)
    ensures
        match notification_complaint(*window, displays@) {
            None => r is Ok,
            Some(why) => fails_with(r, why),
        },
{
    let id: u32 = match window.display_id {
        None => {
            let mut s = "notification window ".to_owned();
            s.append(decimal(window.id as u64).as_str());
            s.append(" missing display id");
            return Err(Error::InvalidState(s));
        },
        Some(id) => id,
    };
    let display = match find_display(displays, id) {
        None => {
            let mut s = "display ".to_owned();
            s.append(decimal(id as u64).as_str());
            s.append(" missing during notification check");
            return Err(Error::InvalidState(s));
        },
        Some(display) => display,
    };
    verify_corner(window, &display)
}

/// Lower edge of a window.
pub open spec fn lower_edge(w: WindowSnapshot) -> int {
    w.bounds.y + w.bounds.h
}

/// Windows from the lowest edge up, with one more behind those that are as low.
pub open spec fn with_window(sorted: Seq<WindowSnapshot>, w: WindowSnapshot) -> Seq<WindowSnapshot>
    decreases sorted.len(),
{
    if sorted.len() == 0 {
        seq![w]
    } else if lower_edge(sorted.last()) >= lower_edge(w) {
        sorted.push(w)
    } else {
        with_window(sorted.drop_last(), w).push(sorted.last())
    }
}

/// Windows from the lowest edge up; those that are equally low keep their order.
pub open spec fn lowest_first(windows: Seq<WindowSnapshot>) -> Seq<WindowSnapshot>
    decreases windows.len(),
{
    if windows.len() == 0 {
        Seq::empty()
    } else {
        with_window(lowest_first(windows.drop_last()), windows.last())
    }
}

fn add_window(sorted: &mut Vec<WindowSnapshot>, w: WindowSnapshot)
    ensures
        final(sorted)@ == with_window(old(sorted)@, w),
    decreases old(sorted)@.len(),
{
    let n: usize = sorted.len();
    if n == 0 {
        sorted.push(w);
        assert(sorted@ =~= with_window(old(sorted)@, w));
        return ;
    }
    if sorted[n - 1].max_y() >= w.max_y() {
        sorted.push(w);
        return ;
    }
    match sorted.pop() {
        Some(last) => {
            assert(sorted@ =~= old(sorted)@.drop_last());
            add_window(sorted, w);
            sorted.push(last);
        },
        None => {},
    }
}

/// Windows from the lowest edge up; those that are equally low keep their order.
pub fn sort_lowest_first(windows: &Vec<WindowSnapshot>) -> (r: Vec<WindowSnapshot>)
    ensures
        r@ == lowest_first(windows@),
{
    let mut sorted: Vec<WindowSnapshot> = Vec::new();
    let mut i: usize = 0;
    while i < windows.len()
        invariant
            i <= windows@.len(),
            sorted@ == lowest_first(windows@.take(i as int)),
        decreases windows@.len() - i,
    {
        assert(windows@.take(i + 1).drop_last() =~= windows@.take(i as int));
        add_window(&mut sorted, windows[i].clone());
        i = i + 1;
    }
    assert(windows@.take(i as int) =~= windows@);
    sorted
}

proof fn with_window_keeps_order(sorted: Seq<WindowSnapshot>, w: WindowSnapshot)
    requires
        forall|i: int, j: int|
            0 <= i < j < sorted.len() ==> lower_edge(sorted[i]) >= lower_edge(sorted[j]),
    ensures
        with_window(sorted, w).len() == sorted.len() + 1,
        forall|i: int, j: int|
            0 <= i < j < sorted.len() + 1 ==> lower_edge(#[trigger] with_window(sorted, w)[i])
                >= lower_edge(#[trigger] with_window(sorted, w)[j]),
        with_window(sorted, w).to_multiset() == sorted.push(w).to_multiset(),
    decreases sorted.len(),
{
    broadcast use vstd::seq_lib::group_to_multiset_ensures;

    let out = with_window(sorted, w);
    if sorted.len() == 0 {
        assert(out =~= sorted.push(w));
    } else if lower_edge(sorted.last()) >= lower_edge(w) {
    } else {
        let rest = sorted.drop_last();
        let inner = with_window(rest, w);
        with_window_keeps_order(rest, w);
        assert(out =~= inner.push(sorted.last()));
        assert(sorted =~= rest.push(sorted.last()));
        assert(out.to_multiset() =~= sorted.push(w).to_multiset());
        assert forall|i: int, j: int| 0 <= i < j < sorted.len() + 1 implies lower_edge(
            #[trigger] out[i],
        ) >= lower_edge(#[trigger] out[j]) by {
            if j == inner.len() {
                with_window_bounds_below(rest, w, lower_edge(sorted.last()));
            }
        }
    }
}

proof fn with_window_bounds_below(sorted: Seq<WindowSnapshot>, w: WindowSnapshot, least: int)
    requires
        forall|i: int| 0 <= i < sorted.len() ==> lower_edge(#[trigger] sorted[i]) >= least,
        lower_edge(w) >= least,
    ensures
        forall|i: int|
            0 <= i < with_window(sorted, w).len() ==> lower_edge(#[trigger] with_window(sorted, w)[i])
                >= least,
    decreases sorted.len(),
{
    let out = with_window(sorted, w);
    if sorted.len() > 0 {
        let rest = sorted.drop_last();
        assert(lower_edge(sorted[sorted.len() - 1]) >= least);
        if lower_edge(sorted.last()) < lower_edge(w) {
            assert forall|i: int| 0 <= i < rest.len() implies lower_edge(#[trigger] rest[i])
                >= least by {
                assert(lower_edge(sorted[i]) >= least);
            }
            with_window_bounds_below(rest, w, least);
            let inner = with_window(rest, w);
            assert(out == inner.push(sorted.last()));
            assert forall|i: int| 0 <= i < out.len() implies lower_edge(#[trigger] out[i])
                >= least by {
                if i < inner.len() {
                    assert(lower_edge(inner[i]) >= least);
                }
            }
        }
    }
}

/// Sorting keeps the windows and brings the lowest one to the front.
pub proof fn the_lowest_window_comes_first(windows: Seq<WindowSnapshot>)
    ensures
        lowest_first(windows).to_multiset() == windows.to_multiset(),
        lowest_first(windows).len() == windows.len(),
        forall|i: int, j: int|
            0 <= i < j < windows.len() ==> lower_edge(#[trigger] lowest_first(windows)[i])
                >= lower_edge(#[trigger] lowest_first(windows)[j]),
    decreases windows.len(),
{
    broadcast use vstd::seq_lib::group_to_multiset_ensures;

    if windows.len() > 0 {
        let rest = windows.drop_last();
        the_lowest_window_comes_first(rest);
        with_window_keeps_order(lowest_first(rest), windows.last());
        assert(windows =~= rest.push(windows.last()));
        assert(lowest_first(windows).to_multiset() =~= windows.to_multiset());
    } else {
        assert(lowest_first(windows) =~= windows);
    }
}

/// What the HUD reports about its display.
#[derive(Debug, Clone, Copy, PartialEq, Eq, Structural)]
pub enum HudDisplay {
    /// No snapshot was seen.
    Unseen,
    /// The snapshot names no display.
    Unnamed,
    /// The snapshot names a display.
    Named(u32),
}

/// Identifiers in rising order with one more, none of them twice.
pub open spec fn with_id(ids: Seq<u32>, id: u32) -> Seq<u32>
    decreases ids.len(),
{
    if ids.len() == 0 {
        seq![id]
    } else if ids.last() == id {
        ids
    } else if ids.last() < id {
        ids.push(id)
    } else {
        with_id(ids.drop_last(), id).push(ids.last())
    }
}

/// The displays that windows are on, in rising order, none of them twice.
pub open spec fn display_ids(windows: Seq<WindowSnapshot>) -> Seq<u32>
    decreases windows.len(),
{
    if windows.len() == 0 {
        Seq::empty()
    } else {
        let before = display_ids(windows.drop_last());
        match windows.last().display_id {
            Some(id) => with_id(before, id),
            None => before,
        }
    }
}

/// Identifiers as a dump shows them.
pub open spec fn ids_dump(ids: Seq<u32>) -> Seq<char> {
    "["@ + joined(Seq::new(ids.len(), |i: int| dec(ids[i] as nat)), ", "@) + "]"@
}

/// Whether the HUD stands on the focused display: the first complaint, where there
/// is one. With fewer than two displays there is nothing to check.
pub open spec fn alignment_complaint(
    display_count: nat,
    focused: Option<u32>,
    hud: HudDisplay,
    windows: Seq<WindowSnapshot>,
) -> Option<Seq<char>> {
    if display_count < 2 {
        None
    } else {
        match focused {
            None => Some("unable to resolve focused display for verification"@),
            Some(focused) => match hud {
                HudDisplay::Unseen => Some("no HUD snapshot observed after activation"@),
                HudDisplay::Unnamed => Some("HUD snapshot missing active display"@),
                HudDisplay::Named(active) => if active != focused {
                    Some(
                        "active display mismatch: hud="@ + dec(active as nat) + " focused="@ + dec(
                            focused as nat,
                        ),
                    )
                } else if display_ids(windows).len() == 0 {
                    Some("HUD windows missing display identifiers"@)
                } else if display_ids(windows) != seq![active] {
                    Some(
                        "HUD windows on displays "@ + ids_dump(display_ids(windows))
                            + " (expected "@ + dec(active as nat) + ")"@,
                    )
                } else {
                    None
                },
            },
        }
    }
}

fn add_id(ids: &mut Vec<u32>, id: u32)
    ensures
        final(ids)@ == with_id(old(ids)@, id),
    decreases old(ids)@.len(),
{
    let n: usize = ids.len();
    if n == 0 {
        ids.push(id);
        assert(ids@ =~= seq![id]);
        return ;
    }
    let last: u32 = ids[n - 1];
    if last == id {
        return ;
    }
    if last < id {
        ids.push(id);
        return ;
    }
    let _ = ids.pop();
    assert(ids@ =~= old(ids)@.drop_last());
    add_id(ids, id);
    ids.push(last);
}

fn displays_of(windows: &Vec<WindowSnapshot>) -> (r: Vec<u32>)
    ensures
        r@ == display_ids(windows@),
{
    let mut ids: Vec<u32> = Vec::new();
    let mut i: usize = 0;
    while i < windows.len()
        invariant
            i <= windows@.len(),
            ids@ == display_ids(windows@.take(i as int)),
        decreases windows@.len() - i,
    {
        assert(windows@.take(i + 1).drop_last() =~= windows@.take(i as int));
        if let Some(id) = windows[i].display_id {
            add_id(&mut ids, id);
        }
        i = i + 1;
    }
    assert(windows@.take(i as int) =~= windows@);
    ids
}

fn dump_ids(ids: &Vec<u32>) -> (s: String)
    ensures
        s@ == ids_dump(ids@),
{
    let mut parts: Vec<String> = Vec::new();
    let mut i: usize = 0;
    while i < ids.len()
        invariant
            i <= ids@.len(),
            parts@.len() == i,
            forall|j: int| 0 <= j < i ==> (#[trigger] parts@[j])@ == dec(ids@[j] as nat),
        decreases ids@.len() - i,
    {
        parts.push(decimal(ids[i] as u64));
        i = i + 1;
    }
    assert(texts(parts@) =~= Seq::new(ids@.len(), |i: int| dec(ids@[i] as nat)));
    let mut s = "[".to_owned();
    s.append(join(&parts, ", ").as_str());
    s.append("]");
    s
}

/// Fail unless the HUD stands on the focused display.
pub fn verify_display_alignment(
    display_count: usize,
    focused: Option<u32>,
    hud: HudDisplay,
    windows: &Vec<WindowSnapshot>,
) -> (r: Result<(), Error>)
    ensures
        match alignment_complaint(display_count as nat, focused, hud, windows@) {
            None => r is Ok,
            Some(why) => fails_with(r, why),
        },
{
    if display_count < 2 {
        return Ok(());
    }
    let focused: u32 = match focused {
        None => {
            return Err(Error::invalid("unable to resolve focused display for verification"));
        },
        Some(id) => id,
    };
    let active: u32 = match hud {
        HudDisplay::Unseen => {
            return Err(Error::invalid("no HUD snapshot observed after activation"));
        },
        HudDisplay::Unnamed => {
            return Err(Error::invalid("HUD snapshot missing active display"));
        },
        HudDisplay::Named(id) => id,
    };
    if active != focused {
        let mut s = "active display mismatch: hud=".to_owned();
        s.append(decimal(active as u64).as_str());
        s.append(" focused=");
        s.append(decimal(focused as u64).as_str());
        return Err(Error::InvalidState(s));
    }
    let ids = displays_of(windows);
    if ids.len() == 0 {
        return Err(Error::invalid("HUD windows missing display identifiers"));
    }
    if ids.len() != 1 || ids[0] != active {
        assert(ids@ != seq![active]);
        let mut s = "HUD windows on displays ".to_owned();
        s.append(dump_ids(&ids).as_str());
        s.append(" (expected ");
        s.append(decimal(active as u64).as_str());
        s.append(")");
        return Err(Error::InvalidState(s));
    }
    assert(ids@ =~= seq![active]);
    Ok(())
}

proof fn with_id_keeps_order(ids: Seq<u32>, id: u32)
    requires
        forall|i: int, j: int| 0 <= i < j < ids.len() ==> ids[i] < ids[j],
    ensures
        forall|i: int, j: int|
            0 <= i < j < with_id(ids, id).len() ==> with_id(ids, id)[i] < with_id(ids, id)[j],
        forall|x: u32| #[trigger] with_id(ids, id).contains(x) <==> ids.contains(x) || x == id,
    decreases ids.len(),
{
    let out = with_id(ids, id);
    if ids.len() == 0 {
        assert(out[0] == id);
    } else if ids.last() == id {
        assert(ids.contains(id));
    } else if ids.last() < id {
        assert forall|x: u32| out.contains(x) <==> ids.contains(x) || x == id by {
            assert(out[ids.len() as int] == id);
            if ids.contains(x) {
                let k = choose|k: int| 0 <= k < ids.len() && ids[k] == x;
                assert(out[k] == x);
            }
        }
    } else {
        let rest = ids.drop_last();
        with_id_keeps_order(rest, id);
        let inner = with_id(rest, id);
        assert(out =~= inner.push(ids.last()));
        assert forall|x: u32| out.contains(x) <==> ids.contains(x) || x == id by {
            if out.contains(x) {
                let k = choose|k: int| 0 <= k < out.len() && out[k] == x;
                if k < inner.len() {
                    assert(inner.contains(x));
                    if rest.contains(x) {
                        let m = choose|m: int| 0 <= m < rest.len() && rest[m] == x;
                        assert(ids[m] == x);
                    }
                } else {
                    assert(ids[ids.len() - 1] == x);
                }
            }
            if ids.contains(x) {
                let k = choose|k: int| 0 <= k < ids.len() && ids[k] == x;
                if k < rest.len() {
                    assert(rest[k] == x);
                    assert(inner.contains(x));
                    let m = choose|m: int| 0 <= m < inner.len() && inner[m] == x;
                    assert(out[m] == x);
                } else {
                    assert(out[inner.len() as int] == x);
                }
            }
            if x == id {
                assert(inner.contains(x));
                let m = choose|m: int| 0 <= m < inner.len() && inner[m] == x;
                assert(out[m] == x);
            }
        }
        assert forall|i: int, j: int| 0 <= i < j < out.len() implies out[i] < out[j] by {
            if j == inner.len() {
                assert(inner.contains(inner[i]));
                if rest.contains(inner[i]) {
                    let m = choose|m: int| 0 <= m < rest.len() && rest[m] == inner[i];
                    assert(ids[m] < ids[ids.len() - 1]);
                }
            }
        }
    }
}

/// The displays of windows are listed in rising order, each of them once, and no
/// others.
pub proof fn display_ids_are_listed_once(windows: Seq<WindowSnapshot>)
    ensures
        forall|i: int, j: int|
            0 <= i < j < display_ids(windows).len() ==> display_ids(windows)[i] < display_ids(
                windows,
            )[j],
        forall|id: u32| #[trigger]
            display_ids(windows).contains(id) <==> exists|k: int|
                0 <= k < windows.len() && (#[trigger] windows[k]).display_id == Some(id),
    decreases windows.len(),
{
    if windows.len() > 0 {
        let rest = windows.drop_last();
        display_ids_are_listed_once(rest);
        if let Some(last) = windows.last().display_id {
            with_id_keeps_order(display_ids(rest), last);
        }
        assert forall|id: u32| #[trigger]
            display_ids(windows).contains(id) <==> exists|k: int|
                0 <= k < windows.len() && (#[trigger] windows[k]).display_id == Some(id) by {
            if display_ids(rest).contains(id) {
                let k = choose|k: int|
                    0 <= k < rest.len() && (#[trigger] rest[k]).display_id == Some(id);
                assert(windows[k].display_id == Some(id));
            }
            if windows.last().display_id == Some(id) {
                assert(windows[windows.len() - 1].display_id == Some(id));
            }
            if exists|k: int|
                0 <= k < windows.len() && (#[trigger] windows[k]).display_id == Some(id) {
                let k = choose|k: int|
                    0 <= k < windows.len() && (#[trigger] windows[k]).display_id == Some(id);
                if k < rest.len() {
                    assert(rest[k].display_id == Some(id));
                }
            }
        }
    }
}

/// A rectangle that a display holds entirely is on that display, unless an earlier
/// one holds its middle too.
pub proof fn enclosed_windows_are_on_their_display(
    displays: Seq<DisplayFrame>,
    rect: Rect,
    i: int,
    found: Option<u32>,
)
    requires
        0 <= i < displays.len(),
        displays[i].frame.x <= rect.x,
        rect.x + rect.w <= displays[i].frame.x + displays[i].frame.w,
        displays[i].frame.y <= rect.y,
        rect.y + rect.h <= displays[i].frame.y + displays[i].frame.h,
        rect.w >= 0,
        rect.h >= 0,
        forall|j: int| 0 <= j < i ==> !middle_in(#[trigger] displays[j], rect),
        is_display_for(displays, rect, found),
    ensures
        found == Some(displays[i].id),
{
    assert(middle_in(displays[i], rect));
    assert forall|j: int| 0 <= j < displays.len() && holds_most(
        #[trigger] displays[j],
        rect,
    ) implies middle_in(displays[j], rect) by {
        most_holds_the_middle(displays[j], rect);
    }
    if rect.w > 0 && rect.h > 0 {
        assert(rect.w * rect.h > 0) by (nonlinear_arith)
            requires
                rect.w > 0,
                rect.h > 0,
        ;
        assert(overlap(rect, displays[i]) == area_of(rect));
        assert(holds_most(displays[i], rect));
    } else {
        assert forall|j: int| 0 <= j < displays.len() implies !holds_most(
            #[trigger] displays[j],
            rect,
        ) by {
            thin_rectangles_share_nothing(displays[j], rect);
        }
    }
}

/// A rectangle without an area has none in common with a display.
proof fn thin_rectangles_share_nothing(display: DisplayFrame, rect: Rect)
    requires
        rect.w >= 0,
        rect.h >= 0,
        rect.w == 0 || rect.h == 0,
    ensures
        overlap(rect, display) == 0,
{
    let cx = common(rect.x as int, rect.w as int, display.frame.x as int, display.frame.w as int);
    let cy = common(rect.y as int, rect.h as int, display.frame.y as int, display.frame.h as int);
    assert(cx == 0 || cy == 0);
    assert(cx * cy == 0) by (nonlinear_arith)
        requires
            cx == 0 || cy == 0,
    ;
}

/// A display that holds more than half of a rectangle holds its middle.
pub proof fn most_holds_the_middle(display: DisplayFrame, rect: Rect)
    requires
        rect.w >= 0,
        rect.h >= 0,
        holds_most(display, rect),
    ensures
        middle_in(display, rect),
{
    let cx = common(rect.x as int, rect.w as int, display.frame.x as int, display.frame.w as int);
    let cy = common(rect.y as int, rect.h as int, display.frame.y as int, display.frame.h as int);
    if rect.w == 0 || rect.h == 0 {
        thin_rectangles_share_nothing(display, rect);
    }
    let (w, h) = (rect.w as int, rect.h as int);
    assert(0 <= cx <= w && 0 <= cy <= h);
    assert(2 * cx > w) by (nonlinear_arith)
        requires
            2 * (cx * cy) > w * h,
            0 <= cx,
            0 <= cy <= h,
            0 < w,
            0 < h,
    ;
    assert(2 * cy > h) by (nonlinear_arith)
        requires
            2 * (cx * cy) > w * h,
            0 <= cx <= w,
            0 <= cy,
            0 < w,
            0 < h,
    ;
}

} // verus!
