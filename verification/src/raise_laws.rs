//! Which window is found, and which one is brought to the front.

use vstd::prelude::*;

use crate::error::Error;
use crate::pattern::{escaped, raise_pattern};
use crate::pick::{first_where_at, first_where_is_first, first_where_none};
use crate::raise::{
    find_ax_window, has_id, is_listed, match_window_by_title, raise_answer, raise_fits, RaiseEvent,
    RaiseStep, RaiseWindow,
};
use crate::wait::{find_next, search_window, FindEvent, FindStep, FindWindow};
use crate::window::WindowInfo;

verus! {

/// A window is listed when one of the windows has its process and its number.
pub proof fn listed_windows_are_among_the_windows(
    windows: Vec<WindowInfo>,
    pid: i32,
    id: u32,
    r: bool,
)
    requires
        call_ensures(is_listed, (&windows, pid, id), r),
    ensures
        forall|i: int|
            0 <= i < windows@.len() && (#[trigger] windows@[i]).pid == pid && windows@[i].id == id
                ==> r,
        (forall|i: int|
            0 <= i < windows@.len() ==> (#[trigger] windows@[i]).pid != pid || windows@[i].id
                != id) ==> !r,
{
}

/// The element found is the first one with the identifier.
pub proof fn the_element_found_has_the_identifier(ids: Vec<Option<u32>>, id: u32, r: Option<usize>)
    requires
        call_ensures(find_ax_window, (&ids, id), r),
    ensures
        r matches Some(i) ==> i < ids@.len() && ids@[i as int] == Some(id) && forall|j: int|
            0 <= j < i ==> #[trigger] ids@[j] != Some(id),
        r is None ==> forall|j: int| 0 <= j < ids@.len() ==> #[trigger] ids@[j] != Some(id),
{
    first_where_is_first(ids@, has_id(id));
    assert forall|j: int| 0 <= j < ids@.len() implies has_id(id)(#[trigger] ids@[j]) == (ids@[j]
        == Some(id)) by {}
}

/// The title of a window is that of the first one listed with its process and number that
/// has a title at all.
pub proof fn the_title_is_that_of_the_window(
    pid: i32,
    id: u32,
    windows: Vec<WindowInfo>,
    r: Option<String>,
    i: int,
)
    requires
        call_ensures(match_window_by_title, (pid, id, &windows), r),
        0 <= i < windows@.len(),
        windows@[i].pid == pid,
        windows@[i].id == id,
        windows@[i].title@.len() > 0,
        forall|j: int|
            0 <= j < i ==> (#[trigger] windows@[j]).pid != pid || windows@[j].id != id
                || windows@[j].title@.len() == 0,
    ensures
        r == Some(windows@[i].title),
{
    let wanted = |w: WindowInfo| w.pid == pid && w.id == id && w.title@.len() > 0;
    first_where_at(windows@, wanted, i);
}

/// No title is made up: where no window with the process and the number has one, there is
/// none.
pub proof fn no_title_is_made_up(
    pid: i32,
    id: u32,
    windows: Vec<WindowInfo>,
    r: Option<String>,
)
    requires
        call_ensures(match_window_by_title, (pid, id, &windows), r),
        forall|j: int|
            0 <= j < windows@.len() ==> (#[trigger] windows@[j]).pid != pid || windows@[j].id != id
                || windows@[j].title@.len() == 0,
    ensures
        r is None,
{
    let wanted = |w: WindowInfo| w.pid == pid && w.id == id && w.title@.len() > 0;
    first_where_none(windows@, wanted);
}

/// An element is only raised when it is the first with the window's identifier, or was found
/// by the window's title. The application as a whole is activated only when there is no
/// element, or when neither raising it nor ordering the window worked. An error that is
/// reported is the one that came up.
pub proof fn raising_goes_for_the_window(
    w: RaiseWindow,
    event: RaiseEvent,
    after: RaiseWindow,
    step: RaiseStep,
)
    requires
        raise_fits(w.stage, event),
        raise_answer(w, event, after, step),
    ensures
        after.pid == w.pid && after.id == w.id,
        step matches RaiseStep::RaiseElement(Some(at)) ==> {
            &&& event matches RaiseEvent::Elements { status, ids }
            &&& status == 0 && ids is Some && at < ids->0@.len() && ids->0@[at as int] == Some(w.id)
            &&& forall|j: int| 0 <= j < at ==> #[trigger] ids->0@[j] != Some(w.id)
        },
        step == RaiseStep::RaiseElement(None) ==> event == RaiseEvent::Title(true),
        step matches RaiseStep::FindByTitle(title) ==> {
            &&& w.title == Some(title)
            &&& event matches RaiseEvent::Elements { status, ids }
            &&& ids is Some && forall|j: int|
                0 <= j < ids->0@.len() ==> #[trigger] ids->0@[j] != Some(w.id)
        },
        step is OrderAbove <==> event == RaiseEvent::Element(false),
        step is ActivateApp ==> event == RaiseEvent::Title(false) || (event matches RaiseEvent::Order(
            status,
        ) && status != 0) || event is Elements && w.title is None,
        event matches RaiseEvent::Desktop(windows) ==> (step is CreateApp && after.title is Some
            ==> exists|i: int|
            0 <= i < windows@.len() && (#[trigger] windows@[i]).pid == w.pid && windows@[i].id
                == w.id && windows@[i].title == after.title->0),
        step matches RaiseStep::Finish(Err(e)) ==> match event {
            RaiseEvent::Access { trusted, on_main_thread } => if !trusted {
                e is Permission
            } else {
                !on_main_thread && e is MainThread
            },
            RaiseEvent::App(made) => !made && e is AppElement,
            RaiseEvent::Elements { status, ids } => e == Error::AxCode(status) && (status != 0
                || ids is None),
            _ => false,
        },
{
    if let RaiseEvent::Elements { status, ids } = event {
        if ids is Some {
            first_where_is_first(ids->0@, has_id(w.id));
            assert forall|j: int| 0 <= j < ids->0@.len() implies has_id(w.id)(#[trigger] ids->0@[j])
                == (ids->0@[j] == Some(w.id)) by {}
        }
    }
    if let RaiseEvent::Desktop(windows) = event {
        let wanted = |x: WindowInfo| x.pid == w.pid && x.id == w.id && x.title@.len() > 0;
        first_where_is_first(windows@, wanted);
    }
}

/// The window found is the first one of the process with that very title.
pub proof fn the_window_found_has_the_title(
    windows: Vec<WindowInfo>,
    pid: i32,
    title: &str,
    r: Option<u32>,
    i: int,
)
    requires
        call_ensures(search_window, (&windows, pid, title), r),
        0 <= i < windows@.len(),
    ensures
        windows@[i].pid == pid && windows@[i].title@ == title@ && (forall|j: int|
            0 <= j < i ==> (#[trigger] windows@[j]).pid != pid || windows@[j].title@ != title@)
            ==> r == Some(windows@[i].id),
        (forall|j: int|
            0 <= j < windows@.len() ==> (#[trigger] windows@[j]).pid != pid || windows@[j].title@
                != title@) ==> r is None,
{
    let wanted = |w: WindowInfo| w.pid == pid && w.title@ == title@;
    if windows@[i].pid == pid && windows@[i].title@ == title@ && (forall|j: int|
        0 <= j < i ==> (#[trigger] windows@[j]).pid != pid || windows@[j].title@ != title@) {
        first_where_at(windows@, wanted, i);
    }
    if forall|j: int|
        0 <= j < windows@.len() ==> (#[trigger] windows@[j]).pid != pid || windows@[j].title@
            != title@ {
        first_where_none(windows@, wanted);
    }
}

/// A wait ends with a window exactly when a search has found it, and without one only once
/// its time is up. All spaces are searched once, after the active ones; then the clock is
/// looked at after each search.
pub proof fn waits_end_with_what_was_found(
    now: u64,
    timeout: u64,
    poll: u64,
    start: FindWindow,
    f: FindWindow,
    event: FindEvent,
)
    requires
        call_ensures(FindWindow::find_window_id, (now, timeout, poll), start),
        f.deadline_ns == start.deadline_ns,
        f.poll_ns == start.poll_ns,
    ensures
        start.step is ListActive && !start.tried_all,
        ({
            let next = find_next(f, event);
            &&& next.deadline_ns == f.deadline_ns && next.poll_ns == f.poll_ns
            &&& f.step is ListActive && event is Searched ==> if event->Searched_0 is Some {
                next.step == FindStep::Finished(event->Searched_0)
            } else if f.tried_all {
                next.step is CheckClock
            } else {
                next.step is ListAll
            }
            &&& f.step is ListAll && event is Searched ==> next.tried_all && if event->Searched_0 is Some {
                next.step == FindStep::Finished(event->Searched_0)
            } else {
                next.step is CheckClock
            }
            &&& f.step is CheckClock && now + timeout <= u64::MAX && event is Clock ==> {
                let t = event->Clock_0;
                &&& next.step == FindStep::Finished(None) <==> t >= now + timeout
                &&& next.step matches FindStep::Sleep(ns) ==> 0 < ns <= poll && t + ns <= now
                    + timeout && (ns == poll || t + ns == now + timeout)
                &&& next.step is Yield ==> poll == 0
            }
            &&& (f.step is Yield || f.step is Sleep) && event is Rested ==> next.step is ListActive
        }),
{
}

/// The pattern of a title is anchored at both ends, with the escaped title between.
pub proof fn title_patterns_are_anchored(title: &str, r: Result<String, crate::smoketest::error::Error>)
    requires
        call_ensures(raise_pattern, (title,), r),
        r is Ok,
    ensures
        ({
            let p = (r->Ok_0)@;
            &&& p.len() == escaped(title@).len() + 2
            &&& p.first() == '^'
            &&& p.last() == '$'
            &&& p.subrange(1, p.len() - 1) == escaped(title@)
        }),
{
    reveal_strlit("^");
    reveal_strlit("$");
    let p = (r->Ok_0)@;
    assert(p.subrange(1, p.len() - 1) =~= escaped(title@));
}

} // verus!
