//! What an operation on a window promises from its call to its result.

use vstd::prelude::*;

use crate::error::Error;
use crate::geom::{Point, Rect, Size};
use crate::place::adapter::{AxElem, AxEvent, PlaceCall};
use crate::place::apply::{
    set_steps, ApplyAction, ApplyEvent, ApplyRun, ApplyStage, SetStep, SettleGoal, SettleWait,
};
use crate::place::attempt_laws::{
    anchors, close, every_request_is_called_for, meets_frame, told, tells,
    what_is_reported_was_seen,
};
use crate::place::common::{
    safe_park_required, DecisionHooks, FallbackTrigger, PlaceAttemptOptions, PlacementDecisionHooks,
    SettleTiming,
};
use crate::place::engine::{
    exchanges, fell_short, inputs_of, progress_after, ran, PlacementGrid, PlacementOutcome,
};
use crate::place::fallback::{fallback_steps, park_rect, FallbackStep};
use crate::place::grid::MoveDir;
use crate::place::metrics::PlacementCountersSnapshot;
use crate::place::normalize::{
    normalized_after, skip_reason_for_role_subrole, NormalizeAction, NormalizePhase, Normalizer,
    WindowFlag,
};
use crate::place::ops::{
    a_window_stands_in_one_cell, cell_op_done, current_cell, is_default, move_op_done, op_result,
    stands_in, OpRun, WindowState,
};
use crate::screen::ScreenLayout;

verus! {

/// Whether windows of this role and subrole are left alone.
pub open spec fn left_alone(role: Seq<char>, subrole: Seq<char>) -> bool {
    ||| role == "AXSheet"@
    ||| role == "AXPopover"@
    ||| subrole == "AXPopover"@
    ||| subrole == "AXDialog"@
    ||| subrole == "AXSystemDialog"@
    ||| subrole == "AXFloatingWindow"@
}

/// Sheets, popovers, dialogs and floating palettes are left alone, and nothing else is.
pub proof fn sheets_and_palettes_are_left_alone(
    role: &str,
    subrole: &str,
    r: Option<&'static str>,
)
    requires
        call_ensures(skip_reason_for_role_subrole, (role, subrole), r),
    ensures
        r is Some <==> left_alone(role@, subrole@),
{
}

/// By default a window is parked first exactly when its target starts near the global
/// origin, on a screen that does not start near it.
pub proof fn windows_are_parked_near_a_foreign_origin(target: Rect, frame: Rect, eps: i64, r: bool)
    requires
        call_ensures(safe_park_required, (&target, &frame, eps), r),
    ensures
        r <==> {
            &&& -eps <= target.x <= eps && -eps <= target.y <= eps
            &&& frame.x < -eps || frame.x > eps || frame.y < -eps || frame.y > eps
        },
{
}

/// By default shrink, move and grow runs once every other attempt has failed, and never
/// before; windows are verified to two points.
pub proof fn the_default_rules_hold_back(
    options: PlaceAttemptOptions<PlacementDecisionHooks>,
    target: Rect,
    frame: Rect,
    parks: bool,
)
    requires
        is_default(options),
        call_ensures(safe_park_required, (&target, &frame, options@.tuning.epsilon), parks),
    ensures
        options@.tuning.epsilon == 2 * 1024,
        options@.hooks.parks(target, frame, options@.tuning.epsilon) == parks,
        forall|timeline|
            #![trigger options@.hooks.falls_back(FallbackTrigger::Final, target, frame, timeline)]
            options@.hooks.falls_back(FallbackTrigger::Final, target, frame, timeline),
        forall|timeline|
            #![trigger options@.hooks.falls_back(FallbackTrigger::Forced, target, frame, timeline)]
            !options@.hooks.falls_back(FallbackTrigger::Forced, target, frame, timeline),
{
}

/// A window of a kind that is left alone is not touched: nothing is asked of it, nothing is
/// counted, and the operation succeeds.
pub proof fn windows_left_alone_are_not_touched<H: DecisionHooks>(
    run: OpRun<H>,
    window: WindowState,
    screens: ScreenLayout,
    options: PlaceAttemptOptions<H>,
    cell: (u32, u32, u32, u32),
)
    requires
        cell_op_done(run, window, screens, options, cell.0, cell.1, cell.2, cell.3),
        left_alone(window.role@, window.subrole@),
    ensures
        run.result is Ok,
        run.log_after == run.log_before,
        run.counters_after == run.counters_before,
{
}

/// An operation aims at the cell that it was given, of the visible frame of the screen that
/// the window stands on.
pub proof fn an_operation_aims_at_its_cell<H: DecisionHooks>(
    run: OpRun<H>,
    window: WindowState,
    screens: ScreenLayout,
    options: PlaceAttemptOptions<H>,
    cols: u32,
    rows: u32,
    col: u32,
    row: u32,
    frame: Rect,
    cell: Rect,
)
    requires
        cell_op_done(run, window, screens, options, cols, rows, col, row),
        !left_alone(window.role@, window.subrole@),
        call_ensures(ScreenLayout::visible_frame_containing_point, (&screens, window.pos), frame),
        call_ensures(Rect::grid_cell, (&frame, cols, rows, col, row), cell),
    ensures
        run.ctx.win == window.win,
        run.ctx.target == cell,
        run.ctx.visible_frame == frame,
        run.ctx.options == options,
        run.ctx.screens == screens,
        run.grid == (PlacementGrid { cols, rows, col, row }),
{
}

/// A move goes to the cell next to the one that the window stands in: the two share the edge
/// on that side and are aligned along the other axis. At the border the window is placed
/// into the cell that it stands in.
pub proof fn a_move_goes_to_the_adjoining_cell<H: DecisionHooks>(
    run: OpRun<H>,
    window: WindowState,
    screens: ScreenLayout,
    options: PlaceAttemptOptions<H>,
    cols: u32,
    rows: u32,
    dir: MoveDir,
    frame: Rect,
    here: (u32, u32),
    from: Rect,
)
    requires
        move_op_done(run, window, screens, options, cols, rows, dir),
        !left_alone(window.role@, window.subrole@),
        call_ensures(ScreenLayout::visible_frame_containing_point, (&screens, window.pos), frame),
        call_ensures(
            current_cell,
            (&frame, cols, rows, window.pos, window.size, options@.tuning.epsilon),
            here,
        ),
        call_ensures(Rect::grid_cell, (&frame, cols, rows, here.0, here.1), from),
        frame.on_desktop(),
        frame.w >= cols * 1024,
        frame.h >= rows * 1024,
        cols > 0,
        rows > 0,
    ensures
        ({
            let to = run.ctx.target;
            let stays = match dir {
                MoveDir::Left => here.0 == 0,
                MoveDir::Right => here.0 == cols - 1,
                MoveDir::Up => here.1 == 0,
                MoveDir::Down => here.1 == rows - 1,
            };
            &&& run.ctx.win == window.win
            &&& stays ==> to == from
            &&& !stays ==> match dir {
                MoveDir::Left => to.x + to.w == from.x && to.y == from.y && to.h == from.h,
                MoveDir::Right => to.x == from.x + from.w && to.y == from.y && to.h == from.h,
                MoveDir::Up => to.y + to.h == from.y && to.x == from.x && to.w == from.w,
                MoveDir::Down => to.y == from.y + from.h && to.x == from.x && to.w == from.w,
            }
        }),
{
    let eps = options@.tuning.epsilon;
    let (col, row) = choose|col: u32, row: u32|
        {
            let next = crate::place::grid::stepped(dir, col, row, cols, rows);
            &&& #[trigger] stands_in(
                screens.visible_frame(window.pos),
                cols,
                rows,
                window.pos,
                window.size,
                eps,
                col,
                row,
            )
            &&& run.op@ == "place_move_grid"@
            &&& cell_op_done(run, window, screens, options, cols, rows, next.0, next.1)
        };
    a_window_stands_in_one_cell(
        frame,
        cols,
        rows,
        window.pos,
        window.size,
        eps,
        here,
        (col, row),
    );
    crate::place::grid::cells_tile_the_frame(frame, cols, rows, here.0, here.1);
    let next = crate::place::grid::stepped(dir, here.0, here.1, cols, rows);
    crate::place::grid::cells_tile_the_frame(frame, cols, rows, next.0, next.1);
}

/// Whether every exchange concerns one window.
pub open spec fn concern(events: Seq<AxEvent>, win: AxElem) -> bool {
    forall|i: int| 0 <= i < events.len() ==> concerns(#[trigger] events[i], win)
}

/// Whether an exchange concerns a window.
pub open spec fn concerns(event: AxEvent, win: AxElem) -> bool {
    match event {
        AxEvent::Settable { win: it, .. } => it == win,
        AxEvent::Parked { win: it, .. } => it == win,
        AxEvent::Placed { call: PlaceCall::Apply { win: it, .. }, .. } => it == win,
        AxEvent::Placed { call: PlaceCall::SizeOnly { win: it, .. }, .. } => it == win,
        AxEvent::Placed { call: PlaceCall::Nudge { win: it, .. }, .. } => it == win,
        AxEvent::Placed { call: PlaceCall::Fallback { win: it, .. }, .. } => it == win,
    }
}

proof fn placing_concerns_the_window<H: DecisionHooks>(
    run: OpRun<H>,
    log: Seq<AxEvent>,
    counters: PlacementCountersSnapshot,
    outcome: Result<PlacementOutcome, Error>,
)
    requires
        ran(
            run.ctx,
            run.config(),
            log,
            run.log_after,
            counters,
            run.counters_after,
            outcome,
        ),
    ensures
        run.log_after.len() > log.len(),
        run.log_after.take(log.len() as int) == log,
        concern(run.log_after.skip(log.len() as int), run.ctx.win),
{
    let all = run.log_after.skip(log.len() as int);
    let first = run.log_after[log.len() as int];
    let inputs = inputs_of(
        run.ctx,
        run.config(),
        first->Settable_can_pos,
        first->Settable_can_size,
    );
    let events = exchanges(log, run.log_after);
    let end = progress_after(inputs, events);
    let added = run.log_after.skip(log.len() as int + 1);
    assert forall|i: int| 0 <= i < all.len() implies concerns(#[trigger] all[i], run.ctx.win) by {
        if i == 0 {
            assert(all[0] == first);
        } else if i <= events.len() {
            assert(all[i] == added[i - 1]);
            assert(events[i - 1] == added[i - 1]);
            every_request_is_called_for(inputs, events, i - 1);
        } else {
            assert(fell_short(end));
            assert(all[i] == run.log_after.last());
        }
    }
}

/// An operation asks nothing of any window but its own, and forgets nothing that was asked
/// before.
pub proof fn an_operation_concerns_its_window_alone<H: DecisionHooks>(run: OpRun<H>)
    requires
        run.done(),
    ensures
        run.log_after.len() > run.log_before.len(),
        run.log_after.take(run.log_before.len() as int) == run.log_before,
        concern(run.log_after.skip(run.log_before.len() as int), run.ctx.win),
{
    let n = run.log_before.len() as int;
    if run.parks() {
        let answer = choose|answer: Result<(), Error>|
            {
                let parked = #[trigger] run.log_before.push(run.parking(answer));
                match answer {
                    Ok(_) => run.placed(parked, run.counters_before.parked()),
                    Err(error) => {
                        &&& run.log_after == parked
                        &&& run.counters_after == run.counters_before.parked()
                        &&& run.result == Err::<(), Error>(error)
                    },
                }
            };
        let parked = run.log_before.push(run.parking(answer));
        let all = run.log_after.skip(n);
        if answer is Ok {
            let counters = run.counters_before.parked();
            let outcome = choose|outcome: Result<PlacementOutcome, Error>|
                {
                    &&& #[trigger] ran(
                        run.ctx,
                        run.config(),
                        parked,
                        run.log_after,
                        counters,
                        run.counters_after,
                        outcome,
                    )
                    &&& run.result == op_result(
                        run.op,
                        run.ctx.target,
                        run.ctx.options@.tuning.epsilon,
                        outcome,
                    )
                };
            placing_concerns_the_window(run, parked, counters, outcome);
            let rest = run.log_after.skip(n + 1);
            assert(run.log_after.take(n) =~= run.log_after.take(n + 1).take(n));
            assert(parked.take(n) =~= run.log_before);
            assert(run.log_after[n] == run.log_after.take(n + 1)[n]);
            assert forall|i: int| 0 <= i < all.len() implies concerns(
                #[trigger] all[i],
                run.ctx.win,
            ) by {
                if i == 0 {
                    assert(all[0] == run.parking(answer));
                } else {
                    assert(all[i] == rest[i - 1]);
                }
            }
        } else {
            assert(run.log_after.take(n) =~= run.log_before);
            assert forall|i: int| 0 <= i < all.len() implies concerns(
                #[trigger] all[i],
                run.ctx.win,
            ) by {
                assert(all[i] == run.parking(answer));
            }
        }
    } else {
        let outcome = choose|outcome: Result<PlacementOutcome, Error>|
            {
                &&& #[trigger] ran(
                    run.ctx,
                    run.config(),
                    run.log_before,
                    run.log_after,
                    run.counters_before,
                    run.counters_after,
                    outcome,
                )
                &&& run.result == op_result(
                    run.op,
                    run.ctx.target,
                    run.ctx.options@.tuning.epsilon,
                    outcome,
                )
            };
        placing_concerns_the_window(run, run.log_before, run.counters_before, outcome);
    }
}

/// An operation succeeds only with the window last seen where it belongs: within the
/// tolerance of the target, or of the target anchored at a size that it was seen with. When
/// it does not verify, the error names the operation, the target, the tolerance and a
/// rectangle that the window was seen at, with the edges at which that meets the frame
/// reported. Any other error is the one that the last answer gave.
pub proof fn an_operation_reports_what_was_seen<H: DecisionHooks>(run: OpRun<H>)
    requires
        run.done(),
    ensures
        ({
            let seen = run.log_after.skip(run.log_before.len() as int);
            let eps = run.ctx.options@.tuning.epsilon;
            match run.result {
                Ok(_) => exists|got: Rect| #[trigger]
                    tells(run.log_after.last(), got) && (close(got, run.ctx.target, eps) || exists|
                        a: Rect,
                        size: Rect,
                    |
                        #![trigger anchors(a, size, run.ctx.target, run.grid)]
                        {
                            &&& told(seen, size)
                            &&& anchors(a, size, run.ctx.target, run.grid)
                            &&& close(got, a, eps)
                        }),
                Err(Error::PlacementVerificationFailed { op, details }) => {
                    ||| {
                        &&& op == run.op
                        &&& details.expected == run.ctx.target
                        &&& details.epsilon == eps
                        &&& told(seen, details.got)
                        &&& meets_frame(details.got, details.visible_frame, details.clamped, eps)
                    }
                    ||| ends_in(run.log_after.last(), run.result->Err_0)
                },
                Err(error) => ends_in(run.log_after.last(), error),
            }
        }),
{
    let n = run.log_before.len() as int;
    if run.parks() {
        let answer = choose|answer: Result<(), Error>|
            {
                let parked = #[trigger] run.log_before.push(run.parking(answer));
                match answer {
                    Ok(_) => run.placed(parked, run.counters_before.parked()),
                    Err(error) => {
                        &&& run.log_after == parked
                        &&& run.counters_after == run.counters_before.parked()
                        &&& run.result == Err::<(), Error>(error)
                    },
                }
            };
        let parked = run.log_before.push(run.parking(answer));
        if answer is Ok {
            placing_reports_what_was_seen(run, parked, run.counters_before.parked(), n);
        } else {
            assert(run.log_after.last() == run.parking(answer));
        }
    } else {
        placing_reports_what_was_seen(run, run.log_before, run.counters_before, n);
    }
}

/// Whether an exchange ended with an error.
pub open spec fn ends_in(event: AxEvent, error: Error) -> bool {
    match event {
        AxEvent::Placed { call: _, reply } => reply == Err::<(Rect, u64), Error>(error),
        AxEvent::Parked { outcome, .. } => outcome == Err::<(), Error>(error),
        AxEvent::Settable { .. } => false,
    }
}

#[verifier::spinoff_prover]
#[verifier::rlimit(60)]
proof fn placing_reports_what_was_seen<H: DecisionHooks>(
    run: OpRun<H>,
    log: Seq<AxEvent>,
    counters: PlacementCountersSnapshot,
    n: int,
)
    requires
        run.placed(log, counters),
        0 <= n <= log.len(),
    ensures
        ({
            let seen = run.log_after.skip(n);
            let eps = run.ctx.options@.tuning.epsilon;
            match run.result {
                Ok(_) => exists|got: Rect| #[trigger]
                    tells(run.log_after.last(), got) && (close(got, run.ctx.target, eps) || exists|
                        a: Rect,
                        size: Rect,
                    |
                        #![trigger anchors(a, size, run.ctx.target, run.grid)]
                        {
                            &&& told(seen, size)
                            &&& anchors(a, size, run.ctx.target, run.grid)
                            &&& close(got, a, eps)
                        }),
                Err(Error::PlacementVerificationFailed { op, details }) => {
                    ||| {
                        &&& op == run.op
                        &&& details.expected == run.ctx.target
                        &&& details.epsilon == eps
                        &&& told(seen, details.got)
                        &&& meets_frame(details.got, details.visible_frame, details.clamped, eps)
                    }
                    ||| ends_in(run.log_after.last(), run.result->Err_0)
                },
                Err(error) => ends_in(run.log_after.last(), error),
            }
        }),
{
    let outcome = choose|outcome: Result<PlacementOutcome, Error>|
        {
            &&& #[trigger] ran(
                run.ctx,
                run.config(),
                log,
                run.log_after,
                counters,
                run.counters_after,
                outcome,
            )
            &&& run.result == op_result(
                run.op,
                run.ctx.target,
                run.ctx.options@.tuning.epsilon,
                outcome,
            )
        };
    what_is_reported_was_seen(
        run.ctx,
        run.config(),
        log,
        run.log_after,
        counters,
        run.counters_after,
        outcome,
    );
    let near = run.log_after.skip(log.len() as int);
    let all = run.log_after.skip(n);
    assert forall|r: Rect| #[trigger] told(near, r) implies told(all, r) by {
        let j = choose|j: int| 0 <= j < near.len() && #[trigger] tells(near[j], r);
        assert(all[j + log.len() - n] == near[j]);
        assert(tells(all[j + log.len() - n], r));
    }
    match outcome {
        Ok(PlacementOutcome::Verified(success)) => {
            assert(tells(run.log_after.last(), success.final_rect));
            if let Some(a) = success.anchored_target {
                let size = choose|size: Rect| #[trigger]
                    told(near, size) && anchors(a, size, run.ctx.target, run.config().grid);
                assert(told(all, size));
                assert(anchors(a, size, run.ctx.target, run.grid));
            }
        },
        _ => {},
    }
}

/// A shrink, move and grow run first shrinks the window where it is, then moves it to the
/// target at that size, and then grows it to the target. While it is moved it is no larger
/// than the target, and no larger than 400 by 300 points.
pub proof fn a_window_is_shrunk_before_it_is_moved(
    current: Point,
    target: Rect,
    steps: Vec<FallbackStep>,
)
    requires
        call_ensures(fallback_steps, (current, &target), steps),
    ensures
        steps@.len() == 3,
        ({
            let shrunk = steps@[0];
            let moved = steps@[1];
            let grown = steps@[2];
            &&& shrunk.rect.x == current.x && shrunk.rect.y == current.y
            &&& moved.rect.x == target.x && moved.rect.y == target.y
            &&& grown.rect == target
            &&& shrunk.rect.w == moved.rect.w && shrunk.rect.h == moved.rect.h
            &&& moved.rect.w <= target.w && moved.rect.w <= 400 * 1024
            &&& moved.rect.h <= target.h && moved.rect.h <= 300 * 1024
            &&& moved.rect.w == target.w || moved.rect.w == 400 * 1024
            &&& moved.rect.h == target.h || moved.rect.h == 300 * 1024
            &&& !shrunk.pos_first && moved.pos_first && !grown.pos_first
        }),
{
}

/// A window is parked 32 points inside its frame, no larger than its target and no larger
/// than 400 by 300 points; one that cannot be moved or resized is not parked.
pub proof fn windows_are_parked_inside_the_frame(
    frame: Rect,
    target: Rect,
    can_pos: Option<bool>,
    can_size: Option<bool>,
    r: Option<Rect>,
)
    requires
        call_ensures(park_rect, (&frame, &target, can_pos, can_size), r),
    ensures
        r is None <==> can_pos == Some(false) || can_size == Some(false),
        r matches Some(park) ==> {
            &&& park.x - frame.x == 32 * 1024
            &&& park.y - frame.y == 32 * 1024
            &&& park.w <= target.w && park.w <= 400 * 1024
            &&& park.h <= target.h && park.h <= 300 * 1024
            &&& park.w == target.w || park.w == 400 * 1024
            &&& park.h == target.h || park.h == 300 * 1024
        },
{
}

/// The steps that set a rectangle: one for each attribute, in the order asked for, with a
/// pause between them where both are set. An attribute that cannot be set is warned about
/// instead.
pub proof fn each_attribute_has_its_step(
    target: Rect,
    pos_first: bool,
    can_pos: Option<bool>,
    can_size: Option<bool>,
    timing: SettleTiming,
    steps: Vec<SetStep>,
)
    requires
        call_ensures(set_steps, (&target, pos_first, can_pos, can_size, timing), steps),
    ensures
        ({
            let both = can_pos != Some(false) && can_size != Some(false);
            let pos = if pos_first {
                steps@[0]
            } else {
                steps@.last()
            };
            let size = if pos_first {
                steps@.last()
            } else {
                steps@[0]
            };
            &&& steps@.len() == if both {
                3int
            } else {
                2int
            }
            &&& both ==> steps@[1] == SetStep::Pause(timing.apply_stutter_ms)
            &&& can_pos != Some(false) ==> pos == SetStep::Position(
                Point { x: target.x, y: target.y },
            )
            &&& can_pos == Some(false) ==> pos is WarnNonsettable
            &&& can_size != Some(false) ==> size == SetStep::Size(
                Size { width: target.w, height: target.h },
            )
            &&& can_size == Some(false) ==> size is WarnNonsettable
        }),
{
}

/// A wait ends once the window is within the tolerance of what is waited for, or once the
/// pauses have added up to the longest time. Where a size is waited for, it does not matter
/// where the window is.
pub proof fn waits_end_with_the_window_settled(wait: SettleWait, seen: Rect)
    ensures
        wait.ends(seen) <==> wait.waited_ms >= wait.total_ms || match wait.goal {
            SettleGoal::Frame(target) => close(seen, target, wait.eps),
            SettleGoal::Size(size) => {
                &&& -wait.eps <= seen.w - size.width <= wait.eps
                &&& -wait.eps <= seen.h - size.height <= wait.eps
            },
        },
{
}

/// A request performs its steps one after the other, the first as soon as they are known;
/// after the last one it reads where the window is, and reads again after each pause. A
/// nudge sets the one coordinate that is off, and keeps the other.
pub proof fn a_request_goes_through_its_steps(
    run: ApplyRun,
    event: ApplyEvent,
    elapsed_ms: u64,
    after: ApplyRun,
    action: ApplyAction,
    timing: SettleTiming,
    steps: Vec<SetStep>,
)
    requires
        run.valid(),
        run.fits(event),
        run.answered(event, elapsed_ms, after, action),
        timing.apply_stutter_ms == run.stutter_ms,
        run.kind is Frame && event is Settable ==> call_ensures(
            set_steps,
            (
                &run.kind->Frame_target,
                run.kind->pos_first,
                event->Settable_0,
                event->Settable_1,
                timing,
            ),
            steps,
        ),
    ensures
        after.kind == run.kind,
        run.stage is Asking ==> after.steps@ == steps@ && after.stage == ApplyStage::Setting(0)
            && action == ApplyAction::Perform(steps@[0]),
        run.stage is Looking && event is Frame ==> {
            &&& after.steps@.len() == 1
            &&& action == ApplyAction::Perform(after.steps@[0])
            &&& run.kind->axis is Horizontal ==> after.steps@[0] == SetStep::Position(
                Point { x: run.kind->Nudge_target.x, y: event->Frame_0.y },
            )
            &&& run.kind->axis is Vertical ==> after.steps@[0] == SetStep::Position(
                Point { x: event->Frame_0.x, y: run.kind->Nudge_target.y },
            )
        },
        run.stage is Setting && event is Done ==> {
            let i = run.stage->Setting_0;
            &&& after.steps == run.steps
            &&& i + 1 < run.steps@.len() ==> action == ApplyAction::Perform(run.steps@[i + 1])
                && after.stage == ApplyStage::Setting((i + 1) as usize)
            &&& i + 1 == run.steps@.len() ==> action is ReadFrame
        },
        run.stage is Pausing ==> action is ReadFrame,
        run.stage is Reading && event is Frame ==> {
            ||| action matches ApplyAction::Finish(Ok((got, took))) && got == event->Frame_0 && took
                == elapsed_ms
            ||| action == ApplyAction::Perform(SetStep::Pause(run.wait.sleep_ms))
        },
{
}

spec fn asked_for(n: Normalizer, action: NormalizeAction) -> bool {
    match n.phase {
        NormalizePhase::FullScreen => action == NormalizeAction::Read(WindowFlag::FullScreen),
        NormalizePhase::Check(flag) => action == NormalizeAction::Read(flag) && !(
        flag is FullScreen) && (n.changed ==> flag is Zoomed),
        NormalizePhase::Clearing(flag) => action == NormalizeAction::Clear(flag) && !(
        flag is FullScreen),
        NormalizePhase::Polling(flag, _) => action == NormalizeAction::Read(flag) && !(
        flag is FullScreen),
        NormalizePhase::Pausing(flag, _) => action is Sleep && !(flag is FullScreen),
        NormalizePhase::Forgetting => action is ForgetSettable,
        NormalizePhase::Raising => action is PerformRaise,
        NormalizePhase::RaisingById => action is RaiseWindow,
        NormalizePhase::Over => action is Ready || action is GiveUp,
    }
}

proof fn what_was_asked_for_is_known(by_id: bool, answers: Seq<Option<bool>>)
    ensures
        asked_for(normalized_after(by_id, answers).0, normalized_after(by_id, answers).1),
        normalized_after(by_id, answers).0.by_id == by_id,
    decreases answers.len(),
{
    if answers.len() > 0 {
        what_was_asked_for_is_known(by_id, answers.drop_last());
    }
}

/// What is done to a window before it is placed, step by step. A window in full screen is
/// given up. A flag that reads as set is cleared and read again, with pauses, until it reads
/// as not set or the time is up; minimized comes before zoomed. The window is raised last,
/// by its identifier too where that is known.
pub proof fn windows_are_brought_into_view(by_id: bool, answers: Seq<Option<bool>>)
    requires
        answers.len() > 0,
    ensures
        ({
            let last = normalized_after(by_id, answers.drop_last()).1;
            let next = normalized_after(by_id, answers).1;
            let answer = answers.last();
            match last {
                NormalizeAction::Read(WindowFlag::FullScreen) => if answer == Some(true) {
                    next is GiveUp
                } else {
                    next == NormalizeAction::Read(WindowFlag::Minimized)
                },
                NormalizeAction::Read(WindowFlag::Minimized) => {
                    &&& answer == Some(true) ==> next == NormalizeAction::Clear(
                        WindowFlag::Minimized,
                    ) || next is Sleep
                    &&& answer == Some(false) ==> next == NormalizeAction::Read(WindowFlag::Zoomed)
                },
                NormalizeAction::Read(WindowFlag::Zoomed) => {
                    &&& answer == Some(true) ==> next == NormalizeAction::Clear(WindowFlag::Zoomed)
                        || next is Sleep
                    &&& answer == Some(false) ==> next is ForgetSettable || next is PerformRaise
                },
                NormalizeAction::Clear(flag) => next == NormalizeAction::Read(flag) && !(
                flag is FullScreen),
                NormalizeAction::Sleep(ms) => ms == 25 && (next == NormalizeAction::Read(
                    WindowFlag::Minimized,
                ) || next == NormalizeAction::Read(WindowFlag::Zoomed) || next is ForgetSettable),
                NormalizeAction::ForgetSettable => next is PerformRaise,
                NormalizeAction::PerformRaise => if by_id {
                    next is RaiseWindow
                } else {
                    next is Ready
                },
                NormalizeAction::RaiseWindow => next is Ready,
                NormalizeAction::Ready | NormalizeAction::GiveUp => next is Ready,
            }
        }),
    decreases answers.len(),
{
    what_was_asked_for_is_known(by_id, answers.drop_last());
    pauses_are_short(by_id, answers.drop_last());
}

proof fn pauses_are_short(by_id: bool, answers: Seq<Option<bool>>)
    ensures
        ({
            let (n, action) = normalized_after(by_id, answers);
            &&& action matches NormalizeAction::Sleep(ms) ==> ms == 25
            &&& n.phase is Polling || n.phase is Pausing ==> n.changed
        }),
    decreases answers.len(),
{
    if answers.len() > 0 {
        pauses_are_short(by_id, answers.drop_last());
    }
}

} // verus!
