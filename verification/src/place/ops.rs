//! Placing a window into a grid cell, and moving it to a neighbouring one.

use vstd::prelude::*;

use crate::error::{Error, PlacementErrorDetails};
use crate::geom::{Point, Rect, Size};
use crate::place::adapter::{AxAdapter, AxElem, AxEvent};
use crate::place::common::{
    DecisionHooks, PlaceAttemptOptions, PlacementContext, PlacementDecisionHooks,
};
use crate::place::engine::{
    ran, PlacementEngine, PlacementEngineConfig, PlacementGrid, PlacementOutcome,
};
use crate::place::grid::{
    cell_rect, clamp_cell, clamp_to_grid, grid_guess_cell_by_pos, guess_index, occupies, step_cell,
    stepped, tiles, MoveDir,
};
use crate::place::metrics::{PlacementCounters, PlacementCountersSnapshot};
use crate::place::normalize::{skip_reason, skip_reason_for_role_subrole};
use crate::screen::ScreenLayout;

verus! {

/// A window as it was read after normalization.
#[derive(Debug)]
pub struct WindowState {
    /// Handle of the window.
    pub win: AxElem,
    /// Accessibility role; empty when there is none.
    pub role: String,
    /// Accessibility subrole; empty when there is none.
    pub subrole: String,
    /// Where the window is.
    pub pos: Point,
    /// How large the window is.
    pub size: Size,
}

impl WindowState {
    /// Whether windows of this kind are left alone.
    pub open spec fn skipped(self) -> bool {
        skip_reason(self.role@, self.subrole@) is Some
    }
}

/// The conditions under which windows can be placed at all.
pub fn ax_check(trusted: bool, on_main_thread: bool) -> (r: Result<(), Error>)
    ensures
        !trusted ==> r == Err::<(), Error>(Error::Permission),
        trusted && !on_main_thread ==> r == Err::<(), Error>(Error::MainThread),
        trusted && on_main_thread ==> r == Ok::<(), Error>(()),
{
    if !trusted {
        Err(Error::Permission)
    } else if !on_main_thread {
        Err(Error::MainThread)
    } else {
        Ok(())
    }
}

/// The result of an operation, given how its placement ended.
pub open spec fn op_result(
    op: &'static str,
    target: Rect,
    eps: i64,
    outcome: Result<PlacementOutcome, Error>,
) -> Result<(), Error> {
    match outcome {
        Ok(PlacementOutcome::Verified(_)) => Ok(()),
        Ok(PlacementOutcome::PosFirstOnlyFailure(failure)) => Err(
            Error::PlacementVerificationFailed {
                op,
                details: PlacementErrorDetails {
                    expected: target,
                    got: failure.got,
                    epsilon: eps,
                    clamped: failure.clamped,
                    visible_frame: failure.visible_frame,
                    timeline: failure.timeline,
                },
            },
        ),
        Ok(PlacementOutcome::VerificationFailure(failure)) => Err(
            Error::PlacementVerificationFailed {
                op,
                details: PlacementErrorDetails {
                    expected: target,
                    got: failure.got,
                    epsilon: eps,
                    clamped: failure.clamped,
                    visible_frame: failure.visible_frame,
                    timeline: failure.timeline,
                },
            },
        ),
        Err(error) => Err(error),
    }
}

/// One operation: what is placed, under which name, and what it changed.
pub struct OpRun<H> {
    /// What is placed, where and how.
    pub ctx: PlacementContext<H>,
    /// The operation's name.
    pub op: &'static str,
    /// The grid cell that is aimed at.
    pub grid: PlacementGrid,
    /// The log before.
    pub log_before: Seq<AxEvent>,
    /// The log after.
    pub log_after: Seq<AxEvent>,
    /// The counters before.
    pub counters_before: PlacementCountersSnapshot,
    /// The counters after.
    pub counters_after: PlacementCountersSnapshot,
    /// The result.
    pub result: Result<(), Error>,
}

impl<H: DecisionHooks> OpRun<H> {
    /// The configuration of the placement.
    pub open spec fn config(self) -> PlacementEngineConfig<'static> {
        PlacementEngineConfig { label: self.op, grid: self.grid }
    }

    /// Whether the window is parked first.
    pub open spec fn parks(self) -> bool {
        self.ctx.options@.hooks.parks(
            self.ctx.target,
            self.ctx.visible_frame,
            self.ctx.options@.tuning.epsilon,
        )
    }

    /// The exchange in which the window is parked.
    pub open spec fn parking(self, outcome: Result<(), Error>) -> AxEvent {
        AxEvent::Parked {
            label: self.op@,
            win: self.ctx.win,
            visible_frame: self.ctx.visible_frame,
            target: self.ctx.target,
            eps: self.ctx.options@.tuning.epsilon,
            timing: self.ctx.options@.tuning.settle_timing,
            outcome,
        }
    }

    /// Whether the placement ran after `log` and `counters`, and the result
    /// follows from how it ended.
    pub open spec fn placed(self, log: Seq<AxEvent>, counters: PlacementCountersSnapshot) -> bool {
        exists|outcome: Result<PlacementOutcome, Error>|
            {
                &&& #[trigger] ran(
                    self.ctx,
                    self.config(),
                    log,
                    self.log_after,
                    counters,
                    self.counters_after,
                    outcome,
                )
                &&& self.result == op_result(
                    self.op,
                    self.ctx.target,
                    self.ctx.options@.tuning.epsilon,
                    outcome,
                )
            }
    }

    /// Whether the operation did what it promises: park the window where that
    /// is called for, counting it, and place it unless parking failed.
    pub open spec fn done(self) -> bool {
        if self.parks() {
            exists|outcome: Result<(), Error>|
                {
                    let parked = #[trigger] self.log_before.push(self.parking(outcome));
                    match outcome {
                        Ok(_) => self.placed(parked, self.counters_before.parked()),
                        Err(error) => {
                            &&& self.log_after == parked
                            &&& self.counters_after == self.counters_before.parked()
                            &&& self.result == Err::<(), Error>(error)
                        },
                    }
                }
        } else {
            self.placed(self.log_before, self.counters_before)
        }
    }
}

/// Place a window at a resolved target.
fn place_at<A: AxAdapter, H: DecisionHooks>(
    op: &'static str,
    adapter: &mut A,
    counters: &mut PlacementCounters,
    ctx: &PlacementContext<H>,
    grid: PlacementGrid,
) -> (r: Result<(), Error>)
    ensures
        (OpRun {
            ctx: *ctx,
            op,
            grid,
            log_before: old(adapter).log(),
            log_after: final(adapter).log(),
            counters_before: old(counters)@,
            counters_after: final(counters)@,
            result: r,
        }).done(),
{
    let ghost log0 = adapter.log();
    let ghost count0 = counters@;
    let tuning = ctx.tuning();
    let eps: i64 = tuning.epsilon();
    let engine = PlacementEngine::new(ctx, PlacementEngineConfig { label: op, grid });
    let parks = ctx.options.hooks().should_safe_park(&ctx.target, &ctx.visible_frame, eps);
    let ghost mut answer: Result<(), Error> = Ok(());
    if parks {
        counters.record_safe_park();
        let parked = adapter.preflight_safe_park(
            op,
            ctx.win,
            &ctx.visible_frame,
            &ctx.target,
            eps,
            tuning.settle_timing(),
        );
        proof {
            answer = parked;
        }
        if let Err(error) = parked {
            proof {
                let run = OpRun {
                    ctx: *ctx,
                    op,
                    grid,
                    log_before: log0,
                    log_after: adapter.log(),
                    counters_before: count0,
                    counters_after: counters@,
                    result: Err(error),
                };
                assert(run.log_before.push(run.parking(Err(error))) == run.log_after);
            }
            return Err(error);
        }
    }
    let ghost log1 = adapter.log();
    let ghost count1 = counters@;
    let outcome = engine.execute(adapter, counters);
    let ghost ended = outcome;
    let result = match outcome {
        Ok(PlacementOutcome::Verified(_)) => Ok(()),
        Ok(PlacementOutcome::PosFirstOnlyFailure(failure)) => Err(
            Error::PlacementVerificationFailed {
                op,
                details: PlacementErrorDetails {
                    expected: ctx.target,
                    got: failure.got,
                    epsilon: eps,
                    clamped: failure.clamped,
                    visible_frame: failure.visible_frame,
                    timeline: failure.timeline,
                },
            },
        ),
        Ok(PlacementOutcome::VerificationFailure(failure)) => Err(
            Error::PlacementVerificationFailed {
                op,
                details: PlacementErrorDetails {
                    expected: ctx.target,
                    got: failure.got,
                    epsilon: eps,
                    clamped: failure.clamped,
                    visible_frame: failure.visible_frame,
                    timeline: failure.timeline,
                },
            },
        ),
        Err(error) => Err(error),
    };
    proof {
        let run = OpRun {
            ctx: *ctx,
            op,
            grid,
            log_before: log0,
            log_after: adapter.log(),
            counters_before: count0,
            counters_after: counters@,
            result,
        };
        assert(ran(
            run.ctx,
            run.config(),
            log1,
            run.log_after,
            count1,
            run.counters_after,
            ended,
        ));
        assert(run.placed(log1, count1));
        if parks {
            assert(run.log_before.push(run.parking(answer)) == log1);
        }
    }
    result
}

/// The context of a placement into a cell.
pub open spec fn cell_context<H>(
    window: WindowState,
    screens: ScreenLayout,
    options: PlaceAttemptOptions<H>,
    cols: u32,
    rows: u32,
    col: u32,
    row: u32,
) -> PlacementContext<H> {
    let vf = screens.visible_frame(window.pos);
    PlacementContext {
        win: window.win,
        target: cell_rect(vf, cols, rows, col, row),
        visible_frame: vf,
        options,
        screens,
    }
}

/// Place a window into a cell that lies inside the grid.
fn place_in_cell<A: AxAdapter, H: DecisionHooks>(
    op: &'static str,
    adapter: &mut A,
    counters: &mut PlacementCounters,
    window: &WindowState,
    screens: ScreenLayout,
    options: PlaceAttemptOptions<H>,
    grid: PlacementGrid,
) -> (r: Result<(), Error>)
    requires
        screens.on_desktop(),
        grid.col < tiles(grid.cols),
        grid.row < tiles(grid.rows),
    ensures
        (OpRun {
            ctx: cell_context(*window, screens, options, grid.cols, grid.rows, grid.col, grid.row),
            op,
            grid,
            log_before: old(adapter).log(),
            log_after: final(adapter).log(),
            counters_before: old(counters)@,
            counters_after: final(counters)@,
            result: r,
        }).done(),
{
    let vf = screens.visible_frame_containing_point(window.pos);
    let target = vf.grid_cell(grid.cols, grid.rows, grid.col, grid.row);
    let ctx = PlacementContext::new(window.win, target, vf, options, screens);
    place_at(op, adapter, counters, &ctx, grid)
}

/// Place a window into a grid cell of the screen that it is on. A column or row
/// outside the grid means the last one. Windows that are not to be placed are
/// left alone.
fn place_grid_inner<A: AxAdapter, H: DecisionHooks>(
    op: &'static str,
    adapter: &mut A,
    counters: &mut PlacementCounters,
    window: &WindowState,
    screens: ScreenLayout,
    cols: u32,
    rows: u32,
    col: u32,
    row: u32,
    options: PlaceAttemptOptions<H>,
) -> (r: Result<(), Error>)
    requires
        screens.on_desktop(),
    ensures
        window.skipped() ==> {
            &&& r == Ok::<(), Error>(())
            &&& final(adapter).log() == old(adapter).log()
            &&& final(counters)@ == old(counters)@
        },
        !window.skipped() ==> (OpRun {
            ctx: cell_context(
                *window,
                screens,
                options,
                cols,
                rows,
                clamp_cell(col, cols),
                clamp_cell(row, rows),
            ),
            op,
            grid: PlacementGrid {
                cols,
                rows,
                col: clamp_cell(col, cols),
                row: clamp_cell(row, rows),
            },
            log_before: old(adapter).log(),
            log_after: final(adapter).log(),
            counters_before: old(counters)@,
            counters_after: final(counters)@,
            result: r,
        }).done(),
{
    if skip_reason_for_role_subrole(window.role.as_str(), window.subrole.as_str()).is_some() {
        return Ok(());
    }
    let grid = PlacementGrid {
        cols,
        rows,
        col: clamp_to_grid(col, cols),
        row: clamp_to_grid(row, rows),
    };
    place_in_cell(op, adapter, counters, window, screens, options, grid)
}

/// What a placement into a cell did, window kinds that are left alone included.
pub open spec fn cell_op_done<H: DecisionHooks>(
    run: OpRun<H>,
    window: WindowState,
    screens: ScreenLayout,
    options: PlaceAttemptOptions<H>,
    cols: u32,
    rows: u32,
    col: u32,
    row: u32,
) -> bool {
    if window.skipped() {
        &&& run.result == Ok::<(), Error>(())
        &&& run.log_after == run.log_before
        &&& run.counters_after == run.counters_before
    } else {
        &&& run.done()
        &&& run.ctx == cell_context(window, screens, options, cols, rows, col, row)
        &&& run.grid == (PlacementGrid { cols, rows, col, row })
    }
}

/// Place the focused window of an application into a grid cell.
pub fn place_grid_focused<A: AxAdapter>(
    adapter: &mut A,
    counters: &mut PlacementCounters,
    window: &WindowState,
    screens: ScreenLayout,
    cols: u32,
    rows: u32,
    col: u32,
    row: u32,
) -> (r: Result<(), Error>)
    requires
        screens.on_desktop(),
    ensures
        exists|run: OpRun<PlacementDecisionHooks>, options: PlaceAttemptOptions<
            PlacementDecisionHooks,
        >|
            {
                &&& #[trigger] cell_op_done(
                    run,
                    *window,
                    screens,
                    options,
                    cols,
                    rows,
                    clamp_cell(col, cols),
                    clamp_cell(row, rows),
                )
                &&& is_default(options)
                &&& run.op@ == "place_grid_focused"@
                &&& run.log_before == old(adapter).log()
                &&& run.log_after == final(adapter).log()
                &&& run.counters_before == old(counters)@
                &&& run.counters_after == final(counters)@
                &&& run.result == r
            },
{
    let options = PlaceAttemptOptions::default();
    place_grid_focused_opts(adapter, counters, window, screens, cols, rows, col, row, options)
}

/// Whether options hold the default settings.
pub open spec fn is_default(options: PlaceAttemptOptions<PlacementDecisionHooks>) -> bool {
    &&& !options@.force_second_attempt
    &&& !options@.pos_first_only
    &&& options@.retry_limits.max_axis_nudges == 1
    &&& options@.retry_limits.max_opposite_order == 1
    &&& options@.retry_limits.max_anchor_attempts == 2
    &&& options@.retry_limits.max_fallback_runs == 1
    &&& options@.tuning.epsilon == crate::place::common::VERIFY_EPS
    &&& options@.tuning.settle_timing.apply_stutter_ms == 2
    &&& options@.tuning.settle_timing.settle_sleep_ms == 20
    &&& options@.tuning.settle_timing.settle_total_ms == 600
    &&& options@.hooks.safe_park is NearForeignOrigin
    &&& !options@.hooks.fallback.forced
    &&& options@.hooks.fallback.last
}

/// [`place_grid_focused`] with explicit options.
pub fn place_grid_focused_opts<A: AxAdapter, H: DecisionHooks>(
    adapter: &mut A,
    counters: &mut PlacementCounters,
    window: &WindowState,
    screens: ScreenLayout,
    cols: u32,
    rows: u32,
    col: u32,
    row: u32,
    options: PlaceAttemptOptions<H>,
) -> (r: Result<(), Error>)
    requires
        screens.on_desktop(),
    ensures
        exists|run: OpRun<H>|
            {
                &&& #[trigger] cell_op_done(
                    run,
                    *window,
                    screens,
                    options,
                    cols,
                    rows,
                    clamp_cell(col, cols),
                    clamp_cell(row, rows),
                )
                &&& run.op@ == "place_grid_focused"@
                &&& run.log_before == old(adapter).log()
                &&& run.log_after == final(adapter).log()
                &&& run.counters_before == old(counters)@
                &&& run.counters_after == final(counters)@
                &&& run.result == r
            },
{
    let ghost log0 = adapter.log();
    let ghost count0 = counters@;
    let op = "place_grid_focused";
    let r = place_grid_inner(
        op,
        adapter,
        counters,
        window,
        screens,
        cols,
        rows,
        col,
        row,
        options,
    );
    proof {
        let c = clamp_cell(col, cols);
        let w = clamp_cell(row, rows);
        let run = OpRun {
            ctx: cell_context(*window, screens, options, cols, rows, c, w),
            op,
            grid: PlacementGrid { cols, rows, col: c, row: w },
            log_before: log0,
            log_after: adapter.log(),
            counters_before: count0,
            counters_after: counters@,
            result: r,
        };
        assert(cell_op_done(run, *window, screens, options, cols, rows, c, w));
    }
    r
}

/// Place a window, found by its identifier, into a grid cell.
pub fn place_grid<A: AxAdapter, H: DecisionHooks>(
    adapter: &mut A,
    counters: &mut PlacementCounters,
    window: &WindowState,
    screens: ScreenLayout,
    cols: u32,
    rows: u32,
    col: u32,
    row: u32,
    options: PlaceAttemptOptions<H>,
) -> (r: Result<(), Error>)
    requires
        screens.on_desktop(),
    ensures
        exists|run: OpRun<H>|
            {
                &&& #[trigger] cell_op_done(
                    run,
                    *window,
                    screens,
                    options,
                    cols,
                    rows,
                    clamp_cell(col, cols),
                    clamp_cell(row, rows),
                )
                &&& run.op@ == "place_grid"@
                &&& run.log_before == old(adapter).log()
                &&& run.log_after == final(adapter).log()
                &&& run.counters_before == old(counters)@
                &&& run.counters_after == final(counters)@
                &&& run.result == r
            },
{
    let ghost log0 = adapter.log();
    let ghost count0 = counters@;
    let op = "place_grid";
    let r = place_grid_inner(
        op,
        adapter,
        counters,
        window,
        screens,
        cols,
        rows,
        col,
        row,
        options,
    );
    proof {
        let c = clamp_cell(col, cols);
        let w = clamp_cell(row, rows);
        let run = OpRun {
            ctx: cell_context(*window, screens, options, cols, rows, c, w),
            op,
            grid: PlacementGrid { cols, rows, col: c, row: w },
            log_before: log0,
            log_after: adapter.log(),
            counters_before: count0,
            counters_after: counters@,
            result: r,
        };
        assert(cell_op_done(run, *window, screens, options, cols, rows, c, w));
    }
    r
}

/// Whether the window stands in a cell: it fills the cell and no earlier one,
/// or it fills none and its position falls into the cell.
pub open spec fn stands_in(
    vf: Rect,
    cols: u32,
    rows: u32,
    pos: Point,
    size: Size,
    eps: i64,
    col: u32,
    row: u32,
) -> bool {
    ||| {
        &&& col < cols
        &&& row < rows
        &&& occupies(vf, cols, rows, pos, size, eps, col, row)
        &&& forall|c: u32, w: u32|
            w < row && c < cols || w == row && c < col ==> !#[trigger] occupies(
                vf,
                cols,
                rows,
                pos,
                size,
                eps,
                c,
                w,
            )
    }
    ||| {
        &&& col == guess_index(pos.x as int, vf.x as int, vf.w as int, cols)
        &&& row == guess_index(pos.y as int, vf.y as int, vf.h as int, rows)
        &&& forall|c: u32, w: u32|
            c < cols && w < rows ==> !#[trigger] occupies(vf, cols, rows, pos, size, eps, c, w)
    }
}

/// The cell that a window stands in.
pub fn current_cell(
    vf: &Rect,
    cols: u32,
    rows: u32,
    pos: Point,
    size: Size,
    eps: i64,
) -> (r: (u32, u32))
    requires
        vf.on_desktop(),
    ensures
        stands_in(*vf, cols, rows, pos, size, eps, r.0, r.1),
        r.0 < tiles(cols),
        r.1 < tiles(rows),
{
    match vf.grid_find_cell(cols, rows, pos, size, eps) {
        Some(cell) => cell,
        None => grid_guess_cell_by_pos(vf, cols, rows, pos),
    }
}

/// Move a window to the neighbouring grid cell in a direction.
pub fn place_move_grid<A: AxAdapter>(
    adapter: &mut A,
    counters: &mut PlacementCounters,
    window: &WindowState,
    screens: ScreenLayout,
    cols: u32,
    rows: u32,
    dir: MoveDir,
) -> (r: Result<(), Error>)
    requires
        screens.on_desktop(),
    ensures
        exists|
            run: OpRun<PlacementDecisionHooks>,
            options: PlaceAttemptOptions<PlacementDecisionHooks>,
        |
            {
                &&& #[trigger] move_op_done(run, *window, screens, options, cols, rows, dir)
                &&& is_default(options)
                &&& run.log_before == old(adapter).log()
                &&& run.log_after == final(adapter).log()
                &&& run.counters_before == old(counters)@
                &&& run.counters_after == final(counters)@
                &&& run.result == r
            },
{
    let options = PlaceAttemptOptions::default();
    place_move_grid_opts(adapter, counters, window, screens, cols, rows, dir, options)
}

/// What a move to the neighbouring cell did: the window was placed into the
/// cell next to the one that it stands in.
pub open spec fn move_op_done<H: DecisionHooks>(
    run: OpRun<H>,
    window: WindowState,
    screens: ScreenLayout,
    options: PlaceAttemptOptions<H>,
    cols: u32,
    rows: u32,
    dir: MoveDir,
) -> bool {
    exists|col: u32, row: u32|
        {
            let next = stepped(dir, col, row, cols, rows);
            &&& #[trigger] stands_in(
                screens.visible_frame(window.pos),
                cols,
                rows,
                window.pos,
                window.size,
                options@.tuning.epsilon,
                col,
                row,
            )
            &&& run.op@ == "place_move_grid"@
            &&& cell_op_done(run, window, screens, options, cols, rows, next.0, next.1)
        }
}

/// [`place_move_grid`] with explicit options.
pub fn place_move_grid_opts<A: AxAdapter, H: DecisionHooks>(
    adapter: &mut A,
    counters: &mut PlacementCounters,
    window: &WindowState,
    screens: ScreenLayout,
    cols: u32,
    rows: u32,
    dir: MoveDir,
    options: PlaceAttemptOptions<H>,
) -> (r: Result<(), Error>)
    requires
        screens.on_desktop(),
    ensures
        exists|run: OpRun<H>|
            {
                &&& #[trigger] move_op_done(run, *window, screens, options, cols, rows, dir)
                &&& run.log_before == old(adapter).log()
                &&& run.log_after == final(adapter).log()
                &&& run.counters_before == old(counters)@
                &&& run.counters_after == final(counters)@
                &&& run.result == r
            },
{
    let ghost log0 = adapter.log();
    let ghost count0 = counters@;
    let ghost layout = screens;
    let op = "place_move_grid";
    let skip = skip_reason_for_role_subrole(window.role.as_str(), window.subrole.as_str()).is_some();
    let vf = screens.visible_frame_containing_point(window.pos);
    let eps: i64 = options.tuning().epsilon();
    let (col, row): (u32, u32) = current_cell(&vf, cols, rows, window.pos, window.size, eps);
    let (next_col, next_row): (u32, u32) = step_cell(dir, col, row, cols, rows);
    let grid = PlacementGrid { cols, rows, col: next_col, row: next_row };
    let r = if skip {
        Ok(())
    } else {
        place_in_cell(op, adapter, counters, window, screens, options, grid)
    };
    proof {
        let run = OpRun {
            ctx: cell_context(*window, layout, options, cols, rows, next_col, next_row),
            op,
            grid,
            log_before: log0,
            log_after: adapter.log(),
            counters_before: count0,
            counters_after: counters@,
            result: r,
        };
        assert(cell_op_done(run, *window, layout, options, cols, rows, next_col, next_row));
        assert(stands_in(
            layout.visible_frame(window.pos),
            cols,
            rows,
            window.pos,
            window.size,
            options@.tuning.epsilon,
            col,
            row,
        ));
        assert(move_op_done(run, *window, layout, options, cols, rows, dir));
    }
    r
}

/// Whether a failed move is followed by raising the window: only when the
/// window did not verify in its new place.
pub fn raises_after_move(result: &Result<(), Error>) -> (r: bool)
    ensures
        r <==> (result matches Err(Error::PlacementVerificationFailed { .. })),
{
    match result {
        Err(Error::PlacementVerificationFailed { .. }) => true,
        _ => false,
    }
}

/// A window stands in exactly one cell.
pub proof fn a_window_stands_in_one_cell(
    vf: Rect,
    cols: u32,
    rows: u32,
    pos: Point,
    size: Size,
    eps: i64,
    a: (u32, u32),
    b: (u32, u32),
)
    requires
        stands_in(vf, cols, rows, pos, size, eps, a.0, a.1),
        stands_in(vf, cols, rows, pos, size, eps, b.0, b.1),
    ensures
        a == b,
{
    if a != b {
        assert(a.0 < cols && a.1 < rows ==> occupies(vf, cols, rows, pos, size, eps, a.0, a.1)
            || !occupies(vf, cols, rows, pos, size, eps, a.0, a.1));
        assert(b.0 < cols && b.1 < rows ==> occupies(vf, cols, rows, pos, size, eps, b.0, b.1)
            || !occupies(vf, cols, rows, pos, size, eps, b.0, b.1));
    }
}

} // verus!
