//! Which windows are listed, and which of them is in front.

use vstd::prelude::*;

use crate::pick::{first_where_at, first_where_is_first, first_where_none};
use crate::window::{
    active_space_ids, counts_as_front, distinct, frontmost_window, frontmost_window_for_pid,
    has_front, in_view_of, list_windows, list_windows_filtered, list_windows_for_spaces, listed,
    ordinary_on_screen, shown, shown_of, shown_on_active_space_of, views, RawWindow, WindowInfo,
    WindowInfoView,
};

verus! {

/// Whether an entry has to be listed: it has a process and a positive number, and its space
/// passes the filter. Without a filter an active space passes, and so does a window on
/// screen without a space; an empty filter passes everything; another one passes the spaces
/// that it names, sticky windows, and windows without a space. Neither layer nor title
/// matters.
pub open spec fn wanted(raw: RawWindow, filter: Option<Seq<i64>>, active: Seq<i64>) -> bool {
    &&& raw.pid is Some
    &&& raw.number is Some && raw.number->0 > 0
    &&& match (filter, raw.space) {
        (None, Some(space)) => space < 0 || active.contains(space),
        (None, None) => raw.on_screen == Some(true),
        (Some(spaces), Some(space)) => spaces.len() == 0 || space < 0 || spaces.contains(space),
        (Some(_), None) => true,
    }
}

/// Whether an entry is that of an ordinary window on screen, one of layer zero or of none.
pub open spec fn ordinary(raw: RawWindow) -> bool {
    &&& raw.pid is Some
    &&& raw.number is Some && raw.number->0 > 0
    &&& raw.on_screen == Some(true)
    &&& raw.layer is None || raw.layer == Some(0i32)
}

/// Whether a window shows what its entry says.
pub open spec fn shows(w: WindowInfoView, raw: RawWindow, active: Seq<i64>) -> bool {
    &&& raw.pid == Some(w.pid)
    &&& raw.number is Some && raw.number->0 == w.id
    &&& w.pos == raw.bounds
    &&& w.space == raw.space
    &&& raw.app matches Some(app) ==> w.app == app@
    &&& raw.app is None ==> w.app.len() == 0
    &&& raw.title matches Some(title) ==> w.title == title@
    &&& raw.title is None ==> w.title.len() == 0
    &&& raw.layer matches Some(layer) ==> w.layer == layer
    &&& raw.layer is None ==> w.layer == 0
    &&& w.is_on_screen <==> raw.on_screen == Some(true)
    &&& w.on_active_space <==> match raw.space {
        Some(space) => space < 0 || active.contains(space),
        None => raw.on_screen == Some(true),
    }
}

/// Whether `at` names, in order, the entries that have to be listed and no other.
pub open spec fn names_the_wanted(
    at: Seq<int>,
    entries: Seq<RawWindow>,
    filter: Option<Seq<i64>>,
    active: Seq<i64>,
) -> bool {
    &&& forall|i: int| 0 <= i < at.len() ==> 0 <= #[trigger] at[i] < entries.len()
    &&& forall|i: int, j: int| 0 <= i < j < at.len() ==> #[trigger] at[i] < #[trigger] at[j]
    &&& forall|k: int|
        0 <= k < entries.len() ==> (wanted(#[trigger] entries[k], filter, active) <==> at.contains(
            k,
        ))
}

proof fn listed_at(entries: Seq<RawWindow>, filter: Option<Seq<i64>>, active: Seq<i64>) -> (at: Seq<
    int,
>)
    ensures
        names_the_wanted(at, entries, filter, active),
        at.len() == listed(entries, filter, active).len(),
        forall|i: int|
            0 <= i < at.len() ==> {
                &&& shows(
                    #[trigger] listed(entries, filter, active)[i],
                    entries[at[i]],
                    active,
                )
                &&& listed(entries, filter, active)[i].focused <==> ordinary(entries[at[i]]) && (
                forall|k: int| 0 <= k < at[i] ==> !ordinary(#[trigger] entries[k]))
            },
    decreases entries.len(),
{
    if entries.len() == 0 {
        let at = Seq::<int>::empty();
        at
    } else {
        let rest = entries.drop_last();
        let raw = entries.last();
        let last = entries.len() - 1;
        let before = listed_at(rest, filter, active);
        let w0 = listed(rest, filter, active);
        let w = listed(entries, filter, active);
        assert forall|k: int| 0 <= k < rest.len() implies rest[k] == #[trigger] entries[k] by {}
        assert(has_front(rest) <==> exists|k: int|
            0 <= k < last && ordinary(#[trigger] entries[k])) by {
            if has_front(rest) {
                let k = choose|k: int|
                    0 <= k < rest.len() && ordinary_on_screen(#[trigger] rest[k]);
                assert(ordinary(entries[k]));
            }
            if exists|k: int| 0 <= k < last && ordinary(#[trigger] entries[k]) {
                let k = choose|k: int| 0 <= k < last && ordinary(#[trigger] entries[k]);
                assert(ordinary_on_screen(rest[k]));
            }
        }
        assert forall|i: int| 0 <= i < before.len() implies {
            &&& shows(#[trigger] w[i], entries[before[i]], active)
            &&& w[i].focused <==> ordinary(entries[before[i]]) && (forall|k: int|
                0 <= k < before[i] ==> !ordinary(#[trigger] entries[k]))
        } by {
            assert(w[i] == w0[i]);
            assert(rest[before[i]] == entries[before[i]]);
            assert((forall|k: int| 0 <= k < before[i] ==> !ordinary(#[trigger] entries[k])) <==> (
            forall|k: int| 0 <= k < before[i] ==> !ordinary(#[trigger] rest[k]))) by {
                if forall|k: int| 0 <= k < before[i] ==> !ordinary(#[trigger] rest[k]) {
                    assert forall|k: int| 0 <= k < before[i] implies !ordinary(
                        #[trigger] entries[k],
                    ) by {
                        assert(rest[k] == entries[k]);
                    }
                }
            }
        }
        if wanted(raw, filter, active) {
            let at = before.push(last);
            assert(w == w0.push(w.last()));
            assert(shows(w[before.len() as int], entries[last], active));
            assert(at.contains(last)) by {
                assert(at[before.len() as int] == last);
            }
            assert forall|k: int| 0 <= k < entries.len() implies (wanted(
                #[trigger] entries[k],
                filter,
                active,
            ) <==> at.contains(k)) by {
                if k < last {
                    assert(rest[k] == entries[k]);
                    if before.contains(k) {
                        let i = choose|i: int| 0 <= i < before.len() && before[i] == k;
                        assert(at[i] == k);
                    }
                    if at.contains(k) {
                        let i = choose|i: int| 0 <= i < at.len() && at[i] == k;
                        assert(before[i] == k);
                    }
                }
            }
            at
        } else {
            assert(w == w0);
            assert forall|k: int| 0 <= k < entries.len() implies (wanted(
                #[trigger] entries[k],
                filter,
                active,
            ) <==> before.contains(k)) by {
                if k < last {
                    assert(rest[k] == entries[k]);
                } else if before.contains(k) {
                    let i = choose|i: int| 0 <= i < before.len() && before[i] == k;
                    assert(before[i] < rest.len());
                }
            }
            before
        }
    }
}

/// Every entry that has a process and a positive number and that passes the space filter is
/// listed, whatever its layer or title: the list holds as many windows as there are such
/// entries, in their order, and each shows what its entry says. The window marked as
/// frontmost is that of the first ordinary entry on screen, of all entries.
pub proof fn every_wanted_window_is_listed(
    entries: Vec<RawWindow>,
    filter: Option<&Vec<i64>>,
    active: Vec<i64>,
    r: Vec<WindowInfo>,
) -> (at: Seq<int>)
    requires
        call_ensures(list_windows_filtered, (&entries, filter, &active), r),
    ensures
        ({
            let spaces = match filter {
                Some(spaces) => Some(spaces@),
                None => None,
            };
            &&& names_the_wanted(at, entries@, spaces, active@)
            &&& at.len() == r@.len()
            &&& forall|i: int|
                0 <= i < r@.len() ==> {
                    &&& shows((#[trigger] r@[i])@, entries@[at[i]], active@)
                    &&& r@[i].focused <==> ordinary(entries@[at[i]]) && (forall|k: int|
                        0 <= k < at[i] ==> !ordinary(#[trigger] entries@[k]))
                }
        }),
{
    let spaces = match filter {
        Some(spaces) => Some(spaces@),
        None => None,
    };
    let at = listed_at(entries@, spaces, active@);
    let w = listed(entries@, spaces, active@);
    assert(views(r@) == w);
    assert forall|i: int| 0 <= i < r@.len() implies {
        &&& shows((#[trigger] r@[i])@, entries@[at[i]], active@)
        &&& r@[i].focused <==> ordinary(entries@[at[i]]) && (forall|k: int|
            0 <= k < at[i] ==> !ordinary(#[trigger] entries@[k]))
    } by {
        assert(views(r@)[i] == r@[i]@);
        assert(shows(w[i], entries@[at[i]], active@));
    }
    at
}

/// Windows without a given filter are those on the active spaces; a given filter is used as
/// it is. Either way it is the active spaces by which windows count as being in view.
pub proof fn lists_differ_by_their_filter_alone(
    entries: Vec<RawWindow>,
    current: Vec<Option<i64>>,
    spaces: Vec<i64>,
    active: Vec<i64>,
    all: Vec<WindowInfo>,
    some: Vec<WindowInfo>,
    all_filtered: Vec<WindowInfo>,
    some_filtered: Vec<WindowInfo>,
)
    requires
        call_ensures(active_space_ids, (&current,), active),
        call_ensures(list_windows, (&entries, &current), all),
        call_ensures(list_windows_for_spaces, (&entries, &current, &spaces), some),
        call_ensures(list_windows_filtered, (&entries, Some(&active), &active), all_filtered),
        call_ensures(list_windows_filtered, (&entries, Some(&spaces), &active), some_filtered),
    ensures
        views(all@) == views(all_filtered@),
        views(some@) == views(some_filtered@),
{
}

/// A space is active exactly when it is the current one of some display, and it is named
/// once, in the order of the displays.
pub proof fn active_spaces_are_the_current_ones(current: Vec<Option<i64>>, r: Vec<i64>) -> (at: Seq<
    int,
>)
    requires
        call_ensures(active_space_ids, (&current,), r),
    ensures
        at.len() == r@.len(),
        forall|i: int|
            0 <= i < at.len() ==> 0 <= #[trigger] at[i] < current@.len() && current@[at[i]] == Some(
                r@[i],
            ),
        forall|i: int, j: int| 0 <= i < j < at.len() ==> #[trigger] at[i] < #[trigger] at[j],
        forall|i: int, j: int| 0 <= i < j < r@.len() ==> #[trigger] r@[i] != #[trigger] r@[j],
        forall|k: int|
            0 <= k < current@.len() && (#[trigger] current@[k]) is Some ==> exists|i: int|
                0 <= i < r@.len() && #[trigger] r@[i] == current@[k]->0 && at[i] <= k,
{
    distinct_at(current@)
}

proof fn distinct_at(ids: Seq<Option<i64>>) -> (at: Seq<int>)
    ensures
        at.len() == distinct(ids).len(),
        forall|i: int|
            0 <= i < at.len() ==> 0 <= #[trigger] at[i] < ids.len() && ids[at[i]] == Some(
                distinct(ids)[i],
            ),
        forall|i: int, j: int| 0 <= i < j < at.len() ==> #[trigger] at[i] < #[trigger] at[j],
        forall|i: int, j: int|
            0 <= i < j < distinct(ids).len() ==> #[trigger] distinct(ids)[i]
                != #[trigger] distinct(ids)[j],
        forall|k: int|
            0 <= k < ids.len() && (#[trigger] ids[k]) is Some ==> exists|i: int|
                0 <= i < distinct(ids).len() && #[trigger] distinct(ids)[i] == ids[k]->0 && at[i]
                    <= k,
    decreases ids.len(),
{
    if ids.len() == 0 {
        Seq::empty()
    } else {
        let rest = ids.drop_last();
        let last = ids.len() - 1;
        let before = distinct(rest);
        let now = distinct(ids);
        let at0 = distinct_at(rest);
        let fresh = ids.last() is Some && !before.contains(ids.last()->0);
        let at = if fresh {
            at0.push(last)
        } else {
            at0
        };
        assert forall|i: int| 0 <= i < before.len() implies now[i] == #[trigger] before[i] by {}
        assert forall|i: int| 0 <= i < at.len() implies 0 <= #[trigger] at[i] < ids.len()
            && ids[at[i]] == Some(now[i]) by {
            if i < at0.len() {
                assert(at[i] == at0[i]);
                assert(rest[at0[i]] == ids[at0[i]]);
                assert(now[i] == before[i]);
            }
        }
        assert forall|i: int, j: int| 0 <= i < j < now.len() implies #[trigger] now[i]
            != #[trigger] now[j] by {
            assert(now[i] == before[i]);
            if j < before.len() {
                assert(now[j] == before[j]);
            } else {
                assert(before.contains(before[i]));
            }
        }
        assert forall|k: int| 0 <= k < ids.len() && (#[trigger] ids[k]) is Some implies exists|i: int|
            0 <= i < now.len() && #[trigger] now[i] == ids[k]->0 && at[i] <= k by {
            if k < last {
                assert(rest[k] == ids[k]);
                let i = choose|i: int|
                    0 <= i < before.len() && #[trigger] before[i] == rest[k]->0 && at0[i] <= k;
                assert(now[i] == ids[k]->0 && at[i] == at0[i]);
            } else if fresh {
                assert(now[before.len() as int] == ids[k]->0);
            } else {
                let i = choose|i: int| 0 <= i < before.len() && before[i] == ids[k]->0;
                assert(now[i] == ids[k]->0 && at[i] == at0[i]);
                assert(at0[i] < rest.len());
            }
        }
        at
    }
}

/// Whether a window is an ordinary one in view whose application is not passed over.
pub open spec fn first_class(w: WindowInfo, skip_apps: Seq<String>) -> bool {
    &&& w.layer == 0 && w.is_on_screen && w.on_active_space
    &&& forall|k: int| 0 <= k < skip_apps.len() ==> (#[trigger] skip_apps[k])@ != w.app@
}

/// The frontmost window is the first ordinary one in view whose application is not passed
/// over. Where there is none, it is the first window on screen.
pub proof fn the_front_window_comes_first(
    windows: Vec<WindowInfo>,
    skip_apps: Vec<String>,
    r: Option<WindowInfo>,
    i: int,
)
    requires
        call_ensures(frontmost_window, (&windows, &skip_apps), r),
        0 <= i < windows@.len(),
    ensures
        first_class(windows@[i], skip_apps@) && (forall|j: int|
            0 <= j < i ==> !first_class(#[trigger] windows@[j], skip_apps@)) ==> r == Some(
            windows@[i],
        ),
        (forall|j: int|
            0 <= j < windows@.len() ==> !first_class(#[trigger] windows@[j], skip_apps@))
            && windows@[i].is_on_screen && (forall|j: int|
            0 <= j < i ==> !(#[trigger] windows@[j]).is_on_screen) ==> r == Some(windows@[i]),
        windows@[i].is_on_screen ==> r is Some,
{
    let best = counts_as_front(skip_apps@);
    assert forall|j: int| 0 <= j < windows@.len() implies best(#[trigger] windows@[j])
        == first_class(windows@[j], skip_apps@) by {}
    if first_class(windows@[i], skip_apps@) && (forall|j: int|
        0 <= j < i ==> !first_class(#[trigger] windows@[j], skip_apps@)) {
        first_where_at(windows@, best, i);
    }
    if (forall|j: int| 0 <= j < windows@.len() ==> !first_class(#[trigger] windows@[j], skip_apps@))
        && windows@[i].is_on_screen && (forall|j: int|
        0 <= j < i ==> !(#[trigger] windows@[j]).is_on_screen) {
        first_where_none(windows@, best);
        first_where_at(windows@, shown(), i);
    }
}

/// The frontmost window of a process is its first ordinary one in view; where there is none,
/// its first on screen on an active space; where there is none either, its first on screen.
pub proof fn the_front_window_of_a_process_comes_first(
    windows: Vec<WindowInfo>,
    pid: i32,
    r: Option<WindowInfo>,
    i: int,
)
    requires
        call_ensures(frontmost_window_for_pid, (&windows, pid), r),
        0 <= i < windows@.len(),
        windows@[i].pid == pid,
        windows@[i].is_on_screen,
    ensures
        r is Some,
        windows@[i].on_active_space && windows@[i].layer == 0 && (forall|j: int|
            0 <= j < i ==> !((#[trigger] windows@[j]).pid == pid && windows@[j].is_on_screen
                && windows@[j].on_active_space && windows@[j].layer == 0)) ==> r == Some(
            windows@[i],
        ),
        windows@[i].on_active_space && (forall|j: int|
            0 <= j < windows@.len() ==> !((#[trigger] windows@[j]).pid == pid
                && windows@[j].is_on_screen && windows@[j].on_active_space && windows@[j].layer
                == 0)) && (forall|j: int|
            0 <= j < i ==> !((#[trigger] windows@[j]).pid == pid && windows@[j].is_on_screen
                && windows@[j].on_active_space)) ==> r == Some(windows@[i]),
        (forall|j: int|
            0 <= j < windows@.len() ==> !((#[trigger] windows@[j]).pid == pid
                && windows@[j].is_on_screen && windows@[j].on_active_space)) && (forall|j: int|
            0 <= j < i ==> !((#[trigger] windows@[j]).pid == pid && windows@[j].is_on_screen))
            ==> r == Some(windows@[i]),
{
    let best = in_view_of(pid);
    let near = shown_on_active_space_of(pid);
    let any = shown_of(pid);
    if windows@[i].on_active_space && windows@[i].layer == 0 && (forall|j: int|
        0 <= j < i ==> !((#[trigger] windows@[j]).pid == pid && windows@[j].is_on_screen
            && windows@[j].on_active_space && windows@[j].layer == 0)) {
        first_where_at(windows@, best, i);
    }
    if windows@[i].on_active_space && (forall|j: int|
        0 <= j < windows@.len() ==> !((#[trigger] windows@[j]).pid == pid
            && windows@[j].is_on_screen && windows@[j].on_active_space && windows@[j].layer == 0))
        && (forall|j: int|
        0 <= j < i ==> !((#[trigger] windows@[j]).pid == pid && windows@[j].is_on_screen
            && windows@[j].on_active_space)) {
        first_where_none(windows@, best);
        first_where_at(windows@, near, i);
    }
    if (forall|j: int|
        0 <= j < windows@.len() ==> !((#[trigger] windows@[j]).pid == pid
            && windows@[j].is_on_screen && windows@[j].on_active_space)) && (forall|j: int|
        0 <= j < i ==> !((#[trigger] windows@[j]).pid == pid && windows@[j].is_on_screen)) {
        first_where_none(windows@, best);
        first_where_none(windows@, near);
        first_where_at(windows@, any, i);
    }
}

/// A window that counts as frontmost is one of the windows and is on screen, and that of a
/// process belongs to it.
pub proof fn front_windows_are_on_screen(
    windows: Vec<WindowInfo>,
    skip_apps: Vec<String>,
    pid: i32,
    r: Option<WindowInfo>,
    own: Option<WindowInfo>,
)
    requires
        call_ensures(frontmost_window, (&windows, &skip_apps), r),
        call_ensures(frontmost_window_for_pid, (&windows, pid), own),
    ensures
        r is Some ==> r->Some_0.is_on_screen && windows@.contains(r->Some_0),
        own is Some ==> own->Some_0.is_on_screen && own->Some_0.pid == pid && windows@.contains(
            own->Some_0,
        ),
{
    first_where_is_first(windows@, counts_as_front(skip_apps@));
    first_where_is_first(windows@, shown());
    first_where_is_first(windows@, in_view_of(pid));
    first_where_is_first(windows@, shown_on_active_space_of(pid));
    first_where_is_first(windows@, shown_of(pid));
}

} // verus!
