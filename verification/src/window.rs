//! The windows of the desktop, as the window server lists them.

use vstd::prelude::*;

use crate::pick::{first_where_at, first_where_none, pick_where};
use crate::text::text_eq;

verus! {

/// Bounds of a window in pixels.
#[derive(Debug, Clone, Copy, PartialEq, Eq, Structural)]
pub struct Pos {
    /// Left edge.
    pub x: i32,
    /// Top edge.
    pub y: i32,
    /// Width.
    pub width: i32,
    /// Height.
    pub height: i32,
}

/// One entry of the window server's list, field by field as far as present.
#[derive(Debug)]
pub struct RawWindow {
    /// Owning process.
    pub pid: Option<i32>,
    /// Window number.
    pub number: Option<i32>,
    /// Space that the window is on.
    pub space: Option<i64>,
    /// Whether the window is on screen.
    pub on_screen: Option<bool>,
    /// Name of the owning application.
    pub app: Option<String>,
    /// Window title.
    pub title: Option<String>,
    /// Bounds.
    pub bounds: Option<Pos>,
    /// Window layer.
    pub layer: Option<i32>,
}

/// A window of the desktop.
#[derive(Debug)]
pub struct WindowInfo {
    /// Name of the owning application.
    pub app: String,
    /// Window title.
    pub title: String,
    /// Owning process.
    pub pid: i32,
    /// Window number.
    pub id: u32,
    /// Bounds.
    pub pos: Option<Pos>,
    /// Space that the window is on.
    pub space: Option<i64>,
    /// Window layer; zero for ordinary windows.
    pub layer: i32,
    /// Whether this is the frontmost ordinary window on screen.
    pub focused: bool,
    /// Whether the window is on screen.
    pub is_on_screen: bool,
    /// Whether the window belongs to an active space.
    pub on_active_space: bool,
}

impl Clone for WindowInfo {
    fn clone(&self) -> (r: Self)
        ensures
            r == *self,
    {
        WindowInfo {
            app: self.app.clone(),
            title: self.title.clone(),
            pid: self.pid,
            id: self.id,
            pos: self.pos,
            space: self.space,
            layer: self.layer,
            focused: self.focused,
            is_on_screen: self.is_on_screen,
            on_active_space: self.on_active_space,
        }
    }
}

/// A window, with its names as text.
pub struct WindowInfoView {
    /// Name of the owning application.
    pub app: Seq<char>,
    /// Window title.
    pub title: Seq<char>,
    /// Owning process.
    pub pid: i32,
    /// Window number.
    pub id: u32,
    /// Bounds.
    pub pos: Option<Pos>,
    /// Space that the window is on.
    pub space: Option<i64>,
    /// Window layer.
    pub layer: i32,
    /// Whether this is the frontmost ordinary window on screen.
    pub focused: bool,
    /// Whether the window is on screen.
    pub is_on_screen: bool,
    /// Whether the window belongs to an active space.
    pub on_active_space: bool,
}

impl View for WindowInfo {
    type V = WindowInfoView;

    open spec fn view(&self) -> WindowInfoView {
        WindowInfoView {
            app: self.app@,
            title: self.title@,
            pid: self.pid,
            id: self.id,
            pos: self.pos,
            space: self.space,
            layer: self.layer,
            focused: self.focused,
            is_on_screen: self.is_on_screen,
            on_active_space: self.on_active_space,
        }
    }
}

/// The windows, with their names as text.
pub open spec fn views(windows: Seq<WindowInfo>) -> Seq<WindowInfoView> {
    Seq::new(windows.len(), |i: int| windows[i]@)
}

/// The text of an optional string, empty when there is none.
pub open spec fn text_or_empty(s: Option<String>) -> Seq<char> {
    match s {
        Some(t) => t@,
        None => Seq::empty(),
    }
}

/// Whether a window with this space is on an active one: sticky windows always
/// are, and windows without a space are when they are on screen.
pub open spec fn space_is_active(
    space: Option<i64>,
    active: Seq<i64>,
    on_screen: bool,
) -> bool {
    match space {
        Some(id) => id < 0 || active.contains(id),
        None => on_screen,
    }
}

/// Whether a window passes the filter: without one, when its space is active;
/// with an empty one, always; otherwise when its space is listed, or it is
/// sticky or without a space.
pub open spec fn included(
    space: Option<i64>,
    filter: Option<Seq<i64>>,
    on_active_space: bool,
) -> bool {
    match filter {
        None => on_active_space,
        Some(spaces) => spaces.len() == 0 || match space {
            Some(id) => id < 0 || spaces.contains(id),
            None => true,
        },
    }
}

/// Whether an entry has what a window needs.
pub open spec fn complete(raw: RawWindow) -> bool {
    raw.pid is Some && (raw.number matches Some(n) && n > 0)
}

/// The window that an entry describes.
pub open spec fn described(raw: RawWindow, active: Seq<i64>, focused: bool) -> WindowInfoView {
    let on_screen = raw.on_screen == Some(true);
    WindowInfoView {
        app: text_or_empty(raw.app),
        title: text_or_empty(raw.title),
        pid: raw.pid->0,
        id: raw.number->0 as u32,
        pos: raw.bounds,
        space: raw.space,
        layer: match raw.layer {
            Some(layer) => layer,
            None => 0,
        },
        focused,
        is_on_screen: on_screen,
        on_active_space: space_is_active(raw.space, active, on_screen),
    }
}

/// Whether an entry is that of an ordinary window on screen.
pub open spec fn ordinary_on_screen(raw: RawWindow) -> bool {
    &&& complete(raw)
    &&& raw.on_screen == Some(true)
    &&& match raw.layer {
        Some(layer) => layer == 0,
        None => true,
    }
}

/// Whether some entry is that of an ordinary window on screen.
pub open spec fn has_front(entries: Seq<RawWindow>) -> bool {
    exists|i: int| 0 <= i < entries.len() && ordinary_on_screen(#[trigger] entries[i])
}

/// The windows of the entries that are complete and pass the filter, in order.
/// The first ordinary one on screen of all entries is marked as frontmost, if it
/// passes the filter.
pub open spec fn listed(
    entries: Seq<RawWindow>,
    filter: Option<Seq<i64>>,
    active: Seq<i64>,
) -> Seq<WindowInfoView>
    decreases entries.len(),
{
    if entries.len() == 0 {
        Seq::empty()
    } else {
        let before = listed(entries.drop_last(), filter, active);
        let raw = entries.last();
        let plain = described(raw, active, false);
        if complete(raw) && included(raw.space, filter, plain.on_active_space) {
            before.push(
                described(
                    raw,
                    active,
                    ordinary_on_screen(raw) && !has_front(entries.drop_last()),
                ),
            )
        } else {
            before
        }
    }
}

/// Whether a list of spaces holds an identifier.
fn holds(spaces: &Vec<i64>, id: i64) -> (r: bool)
    ensures
        r == spaces@.contains(id),
{
    let mut i: usize = 0;
    while i < spaces.len()
        invariant
            i <= spaces@.len(),
            forall|j: int| 0 <= j < i ==> spaces@[j] != id,
        decreases spaces@.len() - i,
    {
        if spaces[i] == id {
            assert(spaces@[i as int] == id);
            return true;
        }
        i = i + 1;
    }
    false
}

/// Whether a window passes the filter.
pub fn should_include_window(
    space: Option<i64>,
    filter_spaces: Option<&Vec<i64>>,
    on_active_space: bool,
) -> (r: bool)
    ensures
        r == included(
            space,
            match filter_spaces {
                Some(spaces) => Some(spaces@),
                None => None,
            },
            on_active_space,
        ),
{
    match filter_spaces {
        None => on_active_space,
        Some(spaces) => if spaces.len() == 0 {
            true
        } else {
            match space {
                Some(id) => id < 0 || holds(spaces, id),
                None => true,
            }
        },
    }
}

fn string_or_empty(s: &Option<String>) -> (r: String)
    ensures
        r@ == text_or_empty(*s),
{
    match s {
        Some(t) => t.clone(),
        None => String::new(),
    }
}

/// The windows of the entries that are complete and pass the filter.
pub fn list_windows_filtered(
    entries: &Vec<RawWindow>,
    filter_spaces: Option<&Vec<i64>>,
    active_spaces: &Vec<i64>,
) -> (r: Vec<WindowInfo>)
    ensures
        views(r@) == listed(
            entries@,
            match filter_spaces {
                Some(spaces) => Some(spaces@),
                None => None,
            },
            active_spaces@,
        ),
{
    let ghost filter = match filter_spaces {
        Some(spaces) => Some(spaces@),
        None => None,
    };
    let mut out: Vec<WindowInfo> = Vec::new();
    let mut frontmost_seen = false;
    let mut i: usize = 0;
    assert(views(out@) =~= Seq::empty());
    while i < entries.len()
        invariant
            i <= entries@.len(),
            filter == (match filter_spaces {
                Some(spaces) => Some(spaces@),
                None => None,
            }),
            views(out@) == listed(entries@.take(i as int), filter, active_spaces@),
            frontmost_seen == has_front(entries@.take(i as int)),
        decreases entries@.len() - i,
    {
        let raw = &entries[i];
        let ghost earlier = entries@.take(i as int);
        let ghost upto = entries@.take(i + 1);
        proof {
            assert(upto.drop_last() =~= earlier);
            assert(upto.last() == entries@[i as int]);
            front_of_one_more(upto);
        }
        i = i + 1;
        let pid: i32 = match raw.pid {
            Some(p) => p,
            None => continue,
        };
        let id: u32 = match raw.number {
            Some(n) => if n > 0 {
                n as u32
            } else {
                continue;
            },
            None => continue,
        };
        let is_on_screen = match raw.on_screen {
            Some(on) => on,
            None => false,
        };
        let layer: i32 = match raw.layer {
            Some(layer) => layer,
            None => 0,
        };
        let focused = !frontmost_seen && layer == 0 && is_on_screen;
        if layer == 0 && is_on_screen {
            frontmost_seen = true;
        }
        let on_active_space = match raw.space {
            Some(space) => space < 0 || holds(active_spaces, space),
            None => is_on_screen,
        };
        if !should_include_window(raw.space, filter_spaces, on_active_space) {
            continue;
        }
        let info = WindowInfo {
            app: string_or_empty(&raw.app),
            title: string_or_empty(&raw.title),
            pid,
            id,
            pos: raw.bounds,
            space: raw.space,
            layer,
            focused,
            is_on_screen,
            on_active_space,
        };
        let ghost before = views(out@);
        let ghost seen = info@;
        out.push(info);
        assert(views(out@) =~= before.push(seen));
    }
    assert(entries@.take(entries@.len() as int) =~= entries@);
    out
}

/// The identifiers in order of their first occurrence.
pub open spec fn distinct(ids: Seq<Option<i64>>) -> Seq<i64>
    decreases ids.len(),
{
    if ids.len() == 0 {
        Seq::empty()
    } else {
        let before = distinct(ids.drop_last());
        match ids.last() {
            Some(id) => if before.contains(id) {
                before
            } else {
                before.push(id)
            },
            None => before,
        }
    }
}

/// The active spaces: the current space of each display, each once.
pub fn active_space_ids(current_spaces: &Vec<Option<i64>>) -> (r: Vec<i64>)
    ensures
        r@ == distinct(current_spaces@),
{
    let mut out: Vec<i64> = Vec::new();
    let mut i: usize = 0;
    while i < current_spaces.len()
        invariant
            i <= current_spaces@.len(),
            out@ == distinct(current_spaces@.take(i as int)),
        decreases current_spaces@.len() - i,
    {
        proof {
            assert(current_spaces@.take(i + 1).drop_last() =~= current_spaces@.take(i as int));
        }
        if let Some(id) = current_spaces[i] {
            if !holds(&out, id) {
                out.push(id);
            }
        }
        i = i + 1;
    }
    assert(current_spaces@.take(i as int) =~= current_spaces@);
    out
}

/// The windows on the active spaces.
pub fn list_windows(entries: &Vec<RawWindow>, current_spaces: &Vec<Option<i64>>) -> (r: Vec<
    WindowInfo,
>)
    ensures
        views(r@) == listed(
            entries@,
            Some(distinct(current_spaces@)),
            distinct(current_spaces@),
        ),
{
    let active = active_space_ids(current_spaces);
    list_windows_filtered(entries, Some(&active), &active)
}

/// The windows on the given spaces; all windows when none is given.
pub fn list_windows_for_spaces(
    entries: &Vec<RawWindow>,
    current_spaces: &Vec<Option<i64>>,
    spaces: &Vec<i64>,
) -> (r: Vec<WindowInfo>)
    ensures
        views(r@) == listed(entries@, Some(spaces@), distinct(current_spaces@)),
{
    let active = active_space_ids(current_spaces);
    list_windows_filtered(entries, Some(spaces), &active)
}

/// Whether the application's windows never count as frontmost.
pub open spec fn is_skipped_app(skip_apps: Seq<String>, app: Seq<char>) -> bool {
    exists|i: int| 0 <= i < skip_apps.len() && (#[trigger] skip_apps[i])@ == app
}

/// An ordinary window that is in view.
pub open spec fn in_view(w: WindowInfo) -> bool {
    w.layer == 0 && w.is_on_screen && w.on_active_space
}

/// The windows that are in view and whose application counts.
pub open spec fn counts_as_front(skip_apps: Seq<String>) -> spec_fn(WindowInfo) -> bool {
    |w: WindowInfo| in_view(w) && !is_skipped_app(skip_apps, w.app@)
}

/// The windows on screen.
pub open spec fn shown() -> spec_fn(WindowInfo) -> bool {
    |w: WindowInfo| w.is_on_screen
}

/// The windows of a process that are in view.
pub open spec fn in_view_of(pid: i32) -> spec_fn(WindowInfo) -> bool {
    |w: WindowInfo| w.pid == pid && in_view(w)
}

/// The windows of a process on screen and on an active space.
pub open spec fn shown_on_active_space_of(pid: i32) -> spec_fn(WindowInfo) -> bool {
    |w: WindowInfo| w.pid == pid && w.is_on_screen && w.on_active_space
}

/// The windows of a process on screen.
pub open spec fn shown_of(pid: i32) -> spec_fn(WindowInfo) -> bool {
    |w: WindowInfo| w.pid == pid && w.is_on_screen
}

/// The frontmost window on screen: the first ordinary one in view whose
/// application counts, else the first on screen.
pub open spec fn frontmost(windows: Seq<WindowInfo>, skip_apps: Seq<String>) -> Option<WindowInfo> {
    let primary = pick_where(windows, counts_as_front(skip_apps));
    if primary is Some {
        primary
    } else {
        pick_where(windows, shown())
    }
}

/// The frontmost window of a process on screen: its first ordinary one in view,
/// else its first on an active space, else its first on screen.
pub open spec fn frontmost_of(windows: Seq<WindowInfo>, pid: i32) -> Option<WindowInfo> {
    let primary = pick_where(windows, in_view_of(pid));
    let active = pick_where(windows, shown_on_active_space_of(pid));
    if primary is Some {
        primary
    } else if active is Some {
        active
    } else {
        pick_where(windows, shown_of(pid))
    }
}

fn skips_app(skip_apps: &Vec<String>, app: &String) -> (r: bool)
    ensures
        r == is_skipped_app(skip_apps@, app@),
{
    let mut i: usize = 0;
    while i < skip_apps.len()
        invariant
            i <= skip_apps@.len(),
            forall|j: int| 0 <= j < i ==> (#[trigger] skip_apps@[j])@ != app@,
        decreases skip_apps@.len() - i,
    {
        if text_eq(skip_apps[i].as_str(), app.as_str()) {
            assert(skip_apps@[i as int]@ == app@);
            return true;
        }
        i = i + 1;
    }
    false
}

/// The frontmost on-screen window, if any.
pub fn frontmost_window(windows: &Vec<WindowInfo>, skip_apps: &Vec<String>) -> (r: Option<
    WindowInfo,
>)
    ensures
        r == frontmost(windows@, skip_apps@),
        r matches Some(w) ==> w.is_on_screen && windows@.contains(w),
        r is None <==> forall|j: int|
            0 <= j < windows@.len() ==> !(#[trigger] windows@[j]).is_on_screen,
{
    let ghost best = counts_as_front(skip_apps@);
    let ghost visible = shown();
    let mut first_on_screen: Option<usize> = None;
    let mut i: usize = 0;
    while i < windows.len()
        invariant
            i <= windows@.len(),
            best == counts_as_front(skip_apps@),
            visible == shown(),
            forall|j: int| 0 <= j < i ==> !best(#[trigger] windows@[j]),
            match first_on_screen {
                Some(k) => k < i && visible(windows@[k as int]) && forall|j: int|
                    0 <= j < k ==> !visible(#[trigger] windows@[j]),
                None => forall|j: int| 0 <= j < i ==> !visible(#[trigger] windows@[j]),
            },
        decreases windows@.len() - i,
    {
        let w = &windows[i];
        if w.layer == 0 && w.is_on_screen && w.on_active_space && !skips_app(skip_apps, &w.app) {
            proof {
                first_where_at(windows@, best, i as int);
            }
            return Some(windows[i].clone());
        }
        if first_on_screen.is_none() && w.is_on_screen {
            first_on_screen = Some(i);
        }
        i = i + 1;
    }
    proof {
        first_where_none(windows@, best);
    }
    match first_on_screen {
        Some(k) => {
            proof {
                first_where_at(windows@, visible, k as int);
            }
            Some(windows[k].clone())
        },
        None => {
            proof {
                first_where_none(windows@, visible);
            }
            None
        },
    }
}

/// The frontmost on-screen window of a process, if any.
pub fn frontmost_window_for_pid(windows: &Vec<WindowInfo>, pid: i32) -> (r: Option<WindowInfo>)
    ensures
        r == frontmost_of(windows@, pid),
        r matches Some(w) ==> w.is_on_screen && w.pid == pid && windows@.contains(w),
        r is None <==> forall|j: int|
            0 <= j < windows@.len() && (#[trigger] windows@[j]).pid == pid
                ==> !windows@[j].is_on_screen,
{
    let ghost best = in_view_of(pid);
    let ghost active = shown_on_active_space_of(pid);
    let ghost visible = shown_of(pid);
    let mut first_on_active: Option<usize> = None;
    let mut first_on_screen: Option<usize> = None;
    let mut i: usize = 0;
    while i < windows.len()
        invariant
            i <= windows@.len(),
            best == in_view_of(pid),
            active == shown_on_active_space_of(pid),
            visible == shown_of(pid),
            forall|j: int| 0 <= j < i ==> !best(#[trigger] windows@[j]),
            match first_on_active {
                Some(k) => k < i && active(windows@[k as int]) && forall|j: int|
                    0 <= j < k ==> !active(#[trigger] windows@[j]),
                None => forall|j: int| 0 <= j < i ==> !active(#[trigger] windows@[j]),
            },
            match first_on_screen {
                Some(k) => k < i && visible(windows@[k as int]) && forall|j: int|
                    0 <= j < k ==> !visible(#[trigger] windows@[j]),
                None => forall|j: int| 0 <= j < i ==> !visible(#[trigger] windows@[j]),
            },
        decreases windows@.len() - i,
    {
        let w = &windows[i];
        if w.pid == pid && w.is_on_screen {
            if w.layer == 0 && w.on_active_space {
                proof {
                    first_where_at(windows@, best, i as int);
                }
                return Some(windows[i].clone());
            }
            if first_on_active.is_none() && w.on_active_space {
                first_on_active = Some(i);
            }
            if first_on_screen.is_none() {
                first_on_screen = Some(i);
            }
        }
        i = i + 1;
    }
    proof {
        first_where_none(windows@, best);
        match first_on_active {
            Some(k) => first_where_at(windows@, active, k as int),
            None => first_where_none(windows@, active),
        }
        match first_on_screen {
            Some(k) => first_where_at(windows@, visible, k as int),
            None => first_where_none(windows@, visible),
        }
    }
    if let Some(k) = first_on_active {
        return Some(windows[k].clone());
    }
    if let Some(k) = first_on_screen {
        return Some(windows[k].clone());
    }
    None
}

/// A window that is in view and whose application counts goes before every other:
/// the frontmost window is the first such window.
pub proof fn the_first_window_in_view_is_frontmost(
    windows: Seq<WindowInfo>,
    skip_apps: Seq<String>,
    pid: i32,
    i: int,
)
    requires
        0 <= i < windows.len(),
    ensures
        in_view(windows[i]) && !is_skipped_app(skip_apps, windows[i].app@) && (forall|j: int|
            0 <= j < i ==> !(in_view(#[trigger] windows[j]) && !is_skipped_app(
                skip_apps,
                windows[j].app@,
            ))) ==> frontmost(windows, skip_apps) == Some(windows[i]),
        windows[i].pid == pid && in_view(windows[i]) && (forall|j: int|
            0 <= j < i ==> !((#[trigger] windows[j]).pid == pid && in_view(windows[j])))
            ==> frontmost_of(windows, pid) == Some(windows[i]),
{
    if in_view(windows[i]) && !is_skipped_app(skip_apps, windows[i].app@) && (forall|j: int|
        0 <= j < i ==> !(in_view(#[trigger] windows[j]) && !is_skipped_app(
            skip_apps,
            windows[j].app@,
        ))) {
        first_where_at(windows, counts_as_front(skip_apps), i);
    }
    if windows[i].pid == pid && in_view(windows[i]) && (forall|j: int|
        0 <= j < i ==> !((#[trigger] windows[j]).pid == pid && in_view(windows[j]))) {
        first_where_at(windows, in_view_of(pid), i);
    }
}

/// One more entry has a front when it is one or there was one before.
proof fn front_of_one_more(entries: Seq<RawWindow>)
    requires
        entries.len() > 0,
    ensures
        has_front(entries) <==> has_front(entries.drop_last()) || ordinary_on_screen(
            entries.last(),
        ),
{
    let earlier = entries.drop_last();
    if has_front(earlier) {
        let k = choose|k: int| 0 <= k < earlier.len() && ordinary_on_screen(#[trigger] earlier[k]);
        assert(ordinary_on_screen(entries[k]));
    }
    if ordinary_on_screen(entries.last()) {
        assert(ordinary_on_screen(entries[entries.len() - 1]));
    }
    if has_front(entries) {
        let k = choose|k: int| 0 <= k < entries.len() && ordinary_on_screen(#[trigger] entries[k]);
        if k < earlier.len() {
            assert(ordinary_on_screen(earlier[k]));
        }
    }
}

/// A window that is marked as frontmost is an ordinary one on screen, and no such window
/// comes before it, neither among the windows listed nor among those filtered out. So at
/// most one window is marked.
pub proof fn only_the_first_ordinary_window_is_focused(
    entries: Seq<RawWindow>,
    filter: Option<Seq<i64>>,
    active: Seq<i64>,
)
    ensures
        ({
            let windows = listed(entries, filter, active);
            &&& forall|i: int|
                0 <= i < windows.len() && (#[trigger] windows[i]).focused ==> {
                    &&& windows[i].layer == 0
                    &&& windows[i].is_on_screen
                    &&& forall|j: int|
                        0 <= j < i ==> !((#[trigger] windows[j]).layer == 0
                            && windows[j].is_on_screen)
                }
            &&& forall|i: int|
                0 <= i < windows.len() && (#[trigger] windows[i]).layer == 0
                    && windows[i].is_on_screen ==> has_front(entries)
        }),
    decreases entries.len(),
{
    if entries.len() > 0 {
        let before = listed(entries.drop_last(), filter, active);
        let windows = listed(entries, filter, active);
        only_the_first_ordinary_window_is_focused(entries.drop_last(), filter, active);
        front_of_one_more(entries);
        assert forall|i: int| 0 <= i < before.len() implies windows[i] == #[trigger] before[i] by {}
        assert forall|i: int| 0 <= i < windows.len() && (#[trigger] windows[i]).focused implies {
            &&& windows[i].layer == 0
            &&& windows[i].is_on_screen
            &&& forall|j: int|
                0 <= j < i ==> !((#[trigger] windows[j]).layer == 0 && windows[j].is_on_screen)
        } by {
            if i < before.len() {
                assert(before[i].focused);
            }
            assert forall|j: int| 0 <= j < i implies !((#[trigger] windows[j]).layer == 0
                && windows[j].is_on_screen) by {
                assert(windows[j] == before[j]);
            }
        }
        assert forall|i: int|
            0 <= i < windows.len() && (#[trigger] windows[i]).layer == 0
                && windows[i].is_on_screen implies has_front(entries) by {
            if i < before.len() {
                assert(before[i].layer == 0);
            }
        }
    }
}

/// The window of the first ordinary entry on screen is marked whenever it is listed.
pub proof fn the_frontmost_window_is_focused(
    entries: Seq<RawWindow>,
    filter: Option<Seq<i64>>,
    active: Seq<i64>,
    k: int,
)
    requires
        0 <= k < entries.len(),
        ordinary_on_screen(entries[k]),
        !has_front(entries.take(k)),
        included(
            entries[k].space,
            filter,
            described(entries[k], active, true).on_active_space,
        ),
    ensures
        listed(entries, filter, active).contains(described(entries[k], active, true)),
    decreases entries.len(),
{
    let marked = described(entries[k], active, true);
    let windows = listed(entries, filter, active);
    let before = listed(entries.drop_last(), filter, active);
    if k == entries.len() - 1 {
        assert(entries.take(k) =~= entries.drop_last());
        assert(windows.last() == marked);
    } else {
        assert(entries.drop_last().take(k) =~= entries.take(k));
        the_frontmost_window_is_focused(entries.drop_last(), filter, active, k);
        let i = choose|i: int| 0 <= i < before.len() && before[i] == marked;
        assert(windows[i] == marked);
    }
}

} // verus!
