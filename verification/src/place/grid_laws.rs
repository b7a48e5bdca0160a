//! What cells of a grid have to be, whatever the frame.

use vstd::prelude::*;

use crate::geom::{Point, Rect, Size};
use crate::place::grid::{
    cells_tile_the_frame, clamp_to_grid, grid_guess_cell_by_pos, guess_recovers_cell, occupies,
    step_cell, tile, MoveDir,
};
use crate::place::ops::{a_window_stands_in_one_cell, current_cell};

verus! {

/// A step leads to the cell next to the old one in its direction, in the same row or
/// column; at the border the cell stays.
pub proof fn a_step_leads_to_the_next_cell(
    dir: MoveDir,
    col: u32,
    row: u32,
    cols: u32,
    rows: u32,
    r: (u32, u32),
)
    requires
        call_ensures(step_cell, (dir, col, row, cols, rows), r),
        col < cols,
        row < rows,
    ensures
        dir is Left || dir is Right ==> r.1 == row,
        dir is Up || dir is Down ==> r.0 == col,
        dir is Right ==> if col == cols - 1 {
            r.0 == col
        } else {
            r.0 == col + 1
        },
        dir is Left ==> if col == 0 {
            r.0 == 0
        } else {
            r.0 == col - 1
        },
        dir is Down ==> if row == rows - 1 {
            r.1 == row
        } else {
            r.1 == row + 1
        },
        dir is Up ==> if row == 0 {
            r.1 == 0
        } else {
            r.1 == row - 1
        },
{
}

/// The cell that a step leads to adjoins the old one: they share the edge on that side
/// and are aligned along the other axis.
pub proof fn a_step_leads_across_one_edge(
    vf: Rect,
    dir: MoveDir,
    col: u32,
    row: u32,
    cols: u32,
    rows: u32,
    r: (u32, u32),
    from: Rect,
    to: Rect,
)
    requires
        call_ensures(step_cell, (dir, col, row, cols, rows), r),
        call_ensures(Rect::grid_cell, (&vf, cols, rows, col, row), from),
        call_ensures(Rect::grid_cell, (&vf, cols, rows, r.0, r.1), to),
        vf.on_desktop(),
        vf.w >= cols * 1024,
        vf.h >= rows * 1024,
        col < cols,
        row < rows,
        r != (col, row),
    ensures
        dir is Right ==> to.x == from.x + from.w && to.y == from.y && to.h == from.h,
        dir is Left ==> to.x + to.w == from.x && to.y == from.y && to.h == from.h,
        dir is Down ==> to.y == from.y + from.h && to.x == from.x && to.w == from.w,
        dir is Up ==> to.y + to.h == from.y && to.x == from.x && to.w == from.w,
{
    cells_tile_the_frame(vf, cols, rows, col, row);
    cells_tile_the_frame(vf, cols, rows, r.0, r.1);
}

/// The frame is divided evenly: every cell but the last of a row has the same width, a
/// whole number of points; with one point more the cells would not fit; and the last one
/// takes what the others leave. The same holds of heights.
pub proof fn cells_are_even(vf: Rect, cols: u32, rows: u32, col: u32, row: u32, r: Rect)
    requires
        call_ensures(Rect::grid_cell, (&vf, cols, rows, col, row), r),
        vf.on_desktop(),
        vf.w >= cols * 1024,
        vf.h >= rows * 1024,
        col < cols,
        row < rows,
    ensures
        col < cols - 1 ==> {
            &&& (r.w as int) % 1024 == 0
            &&& r.w * cols <= vf.w < (r.w + 1024) * cols
            &&& r.x - vf.x == r.w * col
        },
        col == cols - 1 ==> {
            &&& r.x + r.w == vf.x + vf.w
            &&& 0 <= r.w * cols - vf.w
            &&& r.w < vf.w as int / (cols as int) + 1024 * cols
        },
        row < rows - 1 ==> {
            &&& (r.h as int) % 1024 == 0
            &&& r.h * rows <= vf.h < (r.h + 1024) * rows
            &&& r.y - vf.y == r.h * row
        },
        row == rows - 1 ==> {
            &&& r.y + r.h == vf.y + vf.h
            &&& 0 <= r.h * rows - vf.h
            &&& r.h < vf.h as int / (rows as int) + 1024 * rows
        },
{
    cells_tile_the_frame(vf, cols, rows, col, row);
    even_axis(vf.w as int, cols, col);
    even_axis(vf.h as int, rows, row);
}

proof fn even_axis(extent: int, n: u32, i: u32)
    requires
        extent >= n * 1024,
        i < n,
    ensures
        tile(extent, n) % 1024 == 0,
        tile(extent, n) * n <= extent < (tile(extent, n) + 1024) * n,
        extent - tile(extent, n) * (n - 1) >= tile(extent, n),
        (extent - tile(extent, n) * (n - 1)) * n >= extent,
        extent - tile(extent, n) * (n - 1) < extent / (n as int) + 1024 * n,
{
    let k = n as int;
    let q = extent / (k * 1024);
    assert(k * 1024 > 0);
    assert(q * (k * 1024) <= extent < (q + 1) * (k * 1024)) by (nonlinear_arith)
        requires
            k * 1024 > 0,
            q == extent / (k * 1024),
    ;
    assert(q >= 1) by (nonlinear_arith)
        requires
            extent >= k * 1024,
            k * 1024 > 0,
            q == extent / (k * 1024),
    ;
    let t = q * 1024;
    assert(tile(extent, n) == t);
    assert(t % 1024 == 0);
    assert(t * k == q * (k * 1024)) by (nonlinear_arith)
        requires
            t == q * 1024,
    ;
    assert((t + 1024) * k == (q + 1) * (k * 1024)) by (nonlinear_arith)
        requires
            t == q * 1024,
    ;
    assert(t * (k - 1) == t * k - t) by (nonlinear_arith);
    let last = extent - t * (k - 1);
    assert(last == extent - t * k + t);
    assert(last * k >= extent) by (nonlinear_arith)
        requires
            last == extent - t * k + t,
            t * k <= extent,
            k >= 1,
    ;
    assert(t <= extent / k) by (nonlinear_arith)
        requires
            t * k <= extent,
            k >= 1,
    ;
    assert((t + 1024) * k == t * k + 1024 * k) by (nonlinear_arith);
}

/// A requested column or row inside the grid is kept, and one beyond it becomes the last.
pub proof fn requests_are_held_inside_the_grid(i: u32, n: u32, r: u32)
    requires
        call_ensures(clamp_to_grid, (i, n), r),
    ensures
        i < n ==> r == i,
        i >= n && n > 0 ==> r == n - 1,
        n == 0 ==> r == 0,
{
}

/// The cell guessed for a position holds it, where a cell does; a position before the
/// frame belongs to the first column or row, one beyond it to the last.
pub proof fn guesses_hold_the_position(
    vf: Rect,
    cols: u32,
    rows: u32,
    p: Point,
    r: (u32, u32),
    col: u32,
    row: u32,
    cell: Rect,
)
    requires
        call_ensures(grid_guess_cell_by_pos, (&vf, cols, rows, p), r),
        call_ensures(Rect::grid_cell, (&vf, cols, rows, col, row), cell),
        vf.on_desktop(),
        vf.w >= cols * 1024,
        vf.h >= rows * 1024,
        col < cols,
        row < rows,
    ensures
        cell.x <= p.x < cell.x + cell.w && cell.y <= p.y < cell.y + cell.h ==> r == (col, row),
        p.x < vf.x ==> r.0 == 0,
        p.y < vf.y ==> r.1 == 0,
        p.x >= vf.x + vf.w ==> r.0 == cols - 1,
        p.y >= vf.y + vf.h ==> r.1 == rows - 1,
{
    if cell.x <= p.x < cell.x + cell.w && cell.y <= p.y < cell.y + cell.h {
        guess_recovers_cell(vf, cols, rows, col, row, p);
    }
    beyond_the_frame(p.x as int - vf.x, vf.w as int, cols);
    beyond_the_frame(p.y as int - vf.y, vf.h as int, rows);
}

proof fn beyond_the_frame(d: int, extent: int, n: u32)
    requires
        extent >= n * 1024,
        n > 0,
    ensures
        d < 0 ==> d / tile(extent, n) < 0,
        d >= extent ==> d / tile(extent, n) >= n - 1,
{
    even_axis(extent, n, 0);
    let t = tile(extent, n);
    assert(t > 0);
    if d < 0 {
        assert(d / t < 0) by (nonlinear_arith)
            requires
                d < 0,
                t > 0,
        ;
    }
    if d >= extent {
        assert(d / t >= n) by (nonlinear_arith)
            requires
                d >= t * n,
                t > 0,
        ;
    }
}

/// Whether every component of a window is within the tolerance of that of a cell.
pub open spec fn fits(pos: Point, size: Size, cell: Rect, eps: i64) -> bool {
    &&& -eps <= pos.x - cell.x <= eps
    &&& -eps <= pos.y - cell.y <= eps
    &&& -eps <= size.width - cell.w <= eps
    &&& -eps <= size.height - cell.h <= eps
}

/// A cell that is found fits the window; and a window that fits a cell is found, in that
/// cell or in one that comes before it row by row.
pub proof fn a_found_cell_fits_the_window(
    vf: Rect,
    cols: u32,
    rows: u32,
    pos: Point,
    size: Size,
    eps: i64,
    r: Option<(u32, u32)>,
    col: u32,
    row: u32,
    cell: Rect,
)
    requires
        call_ensures(Rect::grid_find_cell, (&vf, cols, rows, pos, size, eps), r),
        call_ensures(Rect::grid_cell, (&vf, cols, rows, col, row), cell),
        vf.on_desktop(),
        col < cols,
        row < rows,
    ensures
        r == Some((col, row)) ==> fits(pos, size, cell, eps),
        fits(pos, size, cell, eps) ==> {
            &&& r is Some
            &&& (r->0).0 < cols
            &&& (r->0).1 < row || (r->0).1 == row && (r->0).0 <= col
        },
{
    assert(fits(pos, size, cell, eps) <==> occupies(
        vf,
        cols,
        rows,
        pos,
        size,
        eps,
        col,
        row,
    ));
}

/// A window stands in the cell that it fills; where it fills none, in the one that its
/// position falls into.
pub proof fn windows_stand_where_they_fit_or_begin(
    vf: Rect,
    cols: u32,
    rows: u32,
    pos: Point,
    size: Size,
    eps: i64,
    r: (u32, u32),
    found: Option<(u32, u32)>,
    guessed: (u32, u32),
)
    requires
        call_ensures(current_cell, (&vf, cols, rows, pos, size, eps), r),
        call_ensures(Rect::grid_find_cell, (&vf, cols, rows, pos, size, eps), found),
        call_ensures(grid_guess_cell_by_pos, (&vf, cols, rows, pos), guessed),
        vf.on_desktop(),
    ensures
        found matches Some(cell) ==> r == cell,
        found is None ==> r == guessed,
{
    match found {
        Some(cell) => {
            a_window_stands_in_one_cell(vf, cols, rows, pos, size, eps, r, cell);
        },
        None => {
            a_window_stands_in_one_cell(vf, cols, rows, pos, size, eps, r, guessed);
        },
    }
}

} // verus!
