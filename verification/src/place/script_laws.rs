//! What scripted windows answer, and what a placement run does with what it learns.

use vstd::prelude::*;

use crate::error::Error;
use crate::geom::Rect;
use crate::place::adapter::{
    windows_after, AxElem, AxEvent, FakeCall, FakeWindowView, PlaceCall,
};
use crate::place::op_laws::left_alone;
use crate::place::ops::WindowState;
use crate::place::run::{place_went, PlaceAction, PlaceEvent, PlaceRun, PlaceStage};

verus! {

/// A scripted window takes the oldest answer of the script for the kind of request made,
/// and leaves the other scripts alone; once that script has run out, it takes what it is
/// asked to. It moves only where the answer is to be kept, and notes the request.
pub proof fn scripts_answer_in_order(w: FakeWindowView, call: PlaceCall)
    ensures
        ({
            let after = w.after(call);
            let answer = w.answer(call);
            &&& after.can_set_pos == w.can_set_pos && after.can_set_size == w.can_set_size
            &&& after.pid == w.pid && after.preflight == w.preflight
            &&& after.ops.len() == w.ops.len() + 1 && after.ops.drop_last() == w.ops
            &&& !answer.persist ==> after.rect == w.rect
            &&& match call {
                PlaceCall::Apply { label, target, pos_first, .. } => {
                    &&& after.ops.last() == FakeCall::Apply { label, pos_first }
                    &&& w.apply.len() > 0 ==> answer == w.apply[0] && after.apply == w.apply.skip(1)
                    &&& w.apply.len() == 0 ==> answer.rect == target && answer.persist
                    &&& after.size_only == w.size_only && after.nudge == w.nudge && after.fallback
                        == w.fallback
                    &&& answer.persist ==> after.rect == answer.rect
                },
                PlaceCall::SizeOnly { label, width, height, .. } => {
                    &&& after.ops.last() == FakeCall::SizeOnly { label }
                    &&& w.size_only.len() > 0 ==> answer == w.size_only[0] && after.size_only
                        == w.size_only.skip(1)
                    &&& w.size_only.len() == 0 ==> answer.rect.w == width && answer.rect.h == height
                        && answer.persist
                    &&& after.apply == w.apply && after.nudge == w.nudge && after.fallback
                        == w.fallback
                    &&& after.rect.x == w.rect.x && after.rect.y == w.rect.y
                    &&& answer.persist ==> after.rect.w == answer.rect.w && after.rect.h
                        == answer.rect.h
                },
                PlaceCall::Nudge { label, target, axis, .. } => {
                    &&& after.ops.last() == FakeCall::Nudge { label, axis }
                    &&& w.nudge.len() > 0 ==> answer == w.nudge[0] && after.nudge == w.nudge.skip(1)
                    &&& w.nudge.len() == 0 ==> answer.rect == target && answer.persist
                    &&& after.apply == w.apply && after.size_only == w.size_only && after.fallback
                        == w.fallback
                    &&& answer.persist ==> after.rect == answer.rect
                },
                PlaceCall::Fallback { label, target, .. } => {
                    &&& after.ops.last() == FakeCall::Fallback { label }
                    &&& w.fallback.len() > 0 ==> answer == w.fallback[0] && after.fallback
                        == w.fallback.skip(1)
                    &&& w.fallback.len() == 0 ==> answer.rect == target && answer.persist
                    &&& after.apply == w.apply && after.size_only == w.size_only && after.nudge
                        == w.nudge
                    &&& answer.persist ==> after.rect == answer.rect
                },
            }
        }),
{
    let after = w.after(call);
    assert(after.ops.drop_last() =~= w.ops);
    assert(w.apply.len() > 0 ==> w.apply.drop_first() =~= w.apply.skip(1));
    assert(w.size_only.len() > 0 ==> w.size_only.drop_first() =~= w.size_only.skip(1));
    assert(w.nudge.len() > 0 ==> w.nudge.drop_first() =~= w.nudge.skip(1));
    assert(w.fallback.len() > 0 ==> w.fallback.drop_first() =~= w.fallback.skip(1));
}

/// A scripted window that is parked takes its target, unless its script says that parking
/// fails.
pub proof fn scripted_parks_follow_their_script(w: FakeWindowView, label: Seq<char>, target: Rect)
    ensures
        ({
            let after = w.parked(label, target);
            let fails = w.preflight.len() > 0 && w.preflight[0] is Err;
            &&& w.park_answer() is Err <==> fails
            &&& fails ==> w.park_answer() == w.preflight[0] && after.rect == w.rect
            &&& !fails ==> after.rect == target
            &&& w.preflight.len() > 0 ==> after.preflight == w.preflight.skip(1)
            &&& after.apply == w.apply && after.size_only == w.size_only && after.nudge == w.nudge
                && after.fallback == w.fallback
            &&& after.ops == w.ops.push(FakeCall::Preflight { label })
        }),
{
    assert(w.preflight.len() > 0 ==> w.preflight.drop_first() =~= w.preflight.skip(1));
}

/// An exchange changes no window but the one that it is about, and asking what can be set
/// changes none.
pub proof fn an_exchange_changes_one_window(
    windows: Seq<FakeWindowView>,
    event: AxEvent,
    win: AxElem,
    j: int,
)
    requires
        crate::place::op_laws::concerns(event, win),
        0 <= j < windows.len(),
    ensures
        windows_after(windows, event).len() == windows.len(),
        j != win.id || event is Settable ==> windows_after(windows, event)[j] == windows[j],
        j == win.id && event is Placed ==> windows_after(windows, event)[j] == windows[j].after(
            event->call,
        ),
{
}

spec fn found_before(events: Seq<PlaceEvent>, n: int, win: AxElem) -> bool {
    exists|k: int|
        0 <= k < n && #[trigger] events[k] == PlaceEvent::Found(Ok::<AxElem, Error>(win))
}

spec fn kind_before(events: Seq<PlaceEvent>, n: int, role: String, subrole: String) -> bool {
    exists|k: int| 0 <= k < n && #[trigger] events[k] == PlaceEvent::Kind(role, subrole)
}

spec fn knows_the_window(run: PlaceRun, events: Seq<PlaceEvent>, n: int) -> bool {
    &&& run.stage is Normalizing || run.stage is Describing || run.stage is Measuring
        ==> found_before(events, n, run.win)
    &&& run.stage is Measuring ==> kind_before(events, n, run.role, run.subrole) && !left_alone(
        run.role@,
        run.subrole@,
    )
}

proof fn the_window_is_known(
    runs: Seq<PlaceRun>,
    events: Seq<PlaceEvent>,
    actions: Seq<PlaceAction>,
    n: int,
)
    requires
        place_went(runs, events, actions),
        0 <= n <= events.len(),
    ensures
        knows_the_window(runs[n], events, n),
        runs[n].kind == runs[0].kind,
    decreases n,
{
    if n > 0 {
        the_window_is_known(runs, events, actions, n - 1);
        assert(runs[n - 1].fits(events[n - 1]));
        let p = runs[n - 1];
        let q = runs[n];
        assert(p.answered(events[n - 1], q, actions[n - 1]));
        if found_before(events, n - 1, p.win) {
            let k = choose|k: int|
                0 <= k < n - 1 && #[trigger] events[k] == PlaceEvent::Found(
                    Ok::<AxElem, Error>(p.win),
                );
            assert(events[k] == PlaceEvent::Found(Ok::<AxElem, Error>(p.win)));
        }
        if q.stage is Normalizing && p.stage is Finding {
            assert(events[n - 1] == PlaceEvent::Found(Ok::<AxElem, Error>(q.win)));
        }
        if q.stage is Measuring {
            assert(events[n - 1] == PlaceEvent::Kind(q.role, q.subrole));
        }
    }
}

/// What is placed is the window that was found, as it was read: with the role and subrole
/// that were read, none of a kind that is left alone, and where it was measured.
pub proof fn what_is_placed_was_found(
    runs: Seq<PlaceRun>,
    events: Seq<PlaceEvent>,
    actions: Seq<PlaceAction>,
    n: int,
    window: WindowState,
)
    requires
        place_went(runs, events, actions),
        0 <= n < events.len(),
        actions[n] == PlaceAction::Place(window),
    ensures
        exists|k: int|
            0 <= k < n && #[trigger] events[k] == PlaceEvent::Found(
                Ok::<AxElem, Error>(window.win),
            ),
        exists|k: int|
            0 <= k < n && #[trigger] events[k] == PlaceEvent::Kind(window.role, window.subrole),
        !left_alone(window.role@, window.subrole@),
        events[n] == PlaceEvent::Measured(Ok((window.pos, window.size))),
{
    the_window_is_known(runs, events, actions, n);
    assert(runs[n].fits(events[n]));
    assert(runs[n].answered(events[n], runs[n + 1], actions[n]));
    assert(found_before(events, n, window.win));
    assert(kind_before(events, n, window.role, window.subrole));
}

/// A placement run ends well only when the placement did, or for a window of a kind that is
/// left alone; and the error that it ends with is the one that came up. The window is raised
/// after a failed move, but the failure is still reported.
pub proof fn placement_runs_report_what_came_up(
    before: PlaceRun,
    event: PlaceEvent,
    after: PlaceRun,
    action: PlaceAction,
)
    requires
        before.fits(event),
        before.answered(event, after, action),
    ensures
        action == PlaceAction::Finish(Ok(())) ==> match event {
            PlaceEvent::Placed(result) => result is Ok,
            PlaceEvent::Kind(role, subrole) => left_alone(role@, subrole@),
            _ => false,
        },
        action matches PlaceAction::Finish(Err(e)) ==> match event {
            PlaceEvent::Access(trusted, on_main_thread) => if !trusted {
                e is Permission
            } else {
                !on_main_thread && e is MainThread
            },
            PlaceEvent::Found(found) => found == Err::<AxElem, Error>(e),
            PlaceEvent::Stepped(flag) => e is FullscreenActive,
            PlaceEvent::Measured(measured) => measured is Err && measured->Err_0 == e,
            PlaceEvent::Placed(result) => result == Err::<(), Error>(e),
            PlaceEvent::Raised => before.failure == Some(e),
            _ => false,
        },
        event matches PlaceEvent::Access(true, true) ==> action is FindWindow,
        event matches PlaceEvent::Kind(role, subrole) && left_alone(role@, subrole@) ==> action
            == PlaceAction::Finish(Ok(())),
        event matches PlaceEvent::Placed(Err(e)) ==> if before.kind is Move && e
            is PlacementVerificationFailed {
            action is RaiseWindow && after.failure == Some(e)
        } else {
            action == PlaceAction::Finish(Err(e))
        },
        action matches PlaceAction::Pause(ms) ==> {
            &&& ms == 20
            &&& before.kind is Move
            &&& event == PlaceEvent::Found(Err::<AxElem, Error>(Error::FocusedWindow))
            &&& before.stage is Finding && before.stage->Finding_0 < 40 && after.stage
                == PlaceStage::Waiting((before.stage->Finding_0 + 1) as usize)
        },
{
}

} // verus!
