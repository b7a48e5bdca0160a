//! Cells of a grid laid over a visible frame.
//!
//! Tiles have whole-point extents of at least one point; the last column and
//! the last row take what is left over, so that the cells fill the frame.

use vstd::prelude::*;

use crate::geom::{max_int, min_int, Point, Rect, Size, UNITS_PER_POINT};

verus! {

/// A direction in which a window steps through the grid.
#[derive(Debug, Clone, Copy, PartialEq, Eq, Structural)]
pub enum MoveDir {
    /// One column to the left.
    Left,
    /// One column to the right.
    Right,
    /// One row up.
    Up,
    /// One row down.
    Down,
}

/// Number of tiles along an axis: a grid without tiles counts as one.
pub open spec fn tiles(n: u32) -> int {
    if n == 0 {
        1
    } else {
        n as int
    }
}

/// Extent of one tile: the frame divided evenly, rounded down to whole points,
/// and at least one point.
pub open spec fn tile(extent: int, n: u32) -> int {
    max_int(extent / (tiles(n) * UNITS_PER_POINT) * UNITS_PER_POINT, UNITS_PER_POINT as int)
}

/// The tile that a position falls into, held inside the grid.
pub open spec fn guess_index(pos: int, origin: int, extent: int, n: u32) -> int {
    max_int(0, min_int((pos - origin) / tile(extent, n), n - 1))
}

/// Extent of tile `i`: the last one takes what is left of the frame.
pub open spec fn cell_extent(extent: int, n: u32, i: u32) -> int {
    if i + 1 == tiles(n) {
        extent - tile(extent, n) * (tiles(n) - 1)
    } else {
        tile(extent, n)
    }
}

/// The rectangle of the cell in column `col` and row `row`.
pub open spec fn cell_rect(vf: Rect, cols: u32, rows: u32, col: u32, row: u32) -> Rect {
    Rect {
        x: (vf.x + tile(vf.w as int, cols) * col) as i64,
        y: (vf.y + tile(vf.h as int, rows) * row) as i64,
        w: cell_extent(vf.w as int, cols, col) as i64,
        h: cell_extent(vf.h as int, rows, row) as i64,
    }
}

/// Whether the frame offers at least one point to each tile of an axis.
pub open spec fn roomy(extent: int, n: u32) -> bool {
    extent >= tiles(n) * UNITS_PER_POINT
}

/// The nearest column or row of the grid.
pub open spec fn clamp_cell(i: u32, n: u32) -> u32 {
    if n == 0 {
        0
    } else if i >= n {
        (n - 1) as u32
    } else {
        i
    }
}

/// The cell reached from `(col, row)` by one step, which stays inside the grid.
pub open spec fn stepped(dir: MoveDir, col: u32, row: u32, cols: u32, rows: u32) -> (u32, u32) {
    match dir {
        MoveDir::Left => (if col > 0 { (col - 1) as u32 } else { 0 }, row),
        MoveDir::Right => (if col + 1 < cols { (col + 1) as u32 } else { col }, row),
        MoveDir::Up => (col, if row > 0 { (row - 1) as u32 } else { 0 }),
        MoveDir::Down => (col, if row + 1 < rows { (row + 1) as u32 } else { row }),
    }
}

/// Tiles do not overflow the frame, or are one point wide.
proof fn tile_bounds(extent: int, n: u32)
    ensures
        tile(extent, n) >= UNITS_PER_POINT,
        tile(extent, n) == UNITS_PER_POINT || tile(extent, n) * tiles(n) <= extent,
        roomy(extent, n) ==> tile(extent, n) * tiles(n) <= extent,
        extent >= 0 ==> tile(extent, n) <= max_int(extent, UNITS_PER_POINT as int),
        extent < 0 ==> tile(extent, n) == UNITS_PER_POINT,
{
    let u = UNITS_PER_POINT as int;
    let k = tiles(n);
    let q = extent / (k * u);
    assert(k * u > 0) by (nonlinear_arith)
        requires
            k > 0,
            u > 0,
    ;
    assert(q * (k * u) <= extent) by (nonlinear_arith)
        requires
            k * u > 0,
            q == extent / (k * u),
    ;
    assert((q * u) * k == q * (k * u)) by (nonlinear_arith);
    if q >= 1 {
        assert(q * u >= u) by (nonlinear_arith)
            requires
                q >= 1,
                u > 0,
        ;
        assert(q * u <= (q * u) * k) by (nonlinear_arith)
            requires
                q >= 1,
                u > 0,
                k >= 1,
        ;
    } else {
        assert(q * u <= 0) by (nonlinear_arith)
            requires
                q <= 0,
                u > 0,
        ;
    }
    if roomy(extent, n) {
        assert(q >= 1) by (nonlinear_arith)
            requires
                extent >= k * u,
                k * u > 0,
                q == extent / (k * u),
        ;
    }
    if extent < 0 {
        assert(q <= 0) by (nonlinear_arith)
            requires
                extent < 0,
                k * u > 0,
                q == extent / (k * u),
        ;
    }
}

/// A tile's offset stays within the frame, or within one point per tile.
proof fn tile_offset_bounds(extent: int, n: u32, i: u32)
    requires
        i < tiles(n),
    ensures
        0 <= tile(extent, n) * i,
        tile(extent, n) * i <= max_int(extent, UNITS_PER_POINT * u32::MAX),
        roomy(extent, n) ==> tile(extent, n) * (i + 1) <= extent,
        tile(extent, n) * (i + 1) == tile(extent, n) * i + tile(extent, n),
{
    tile_bounds(extent, n);
    let t = tile(extent, n);
    let k = tiles(n);
    assert(t * i >= 0) by (nonlinear_arith)
        requires
            t > 0,
            i >= 0,
    ;
    assert(t * i <= t * k) by (nonlinear_arith)
        requires
            t > 0,
            i <= k,
    ;
    assert(t * (i + 1) <= t * k) by (nonlinear_arith)
        requires
            t > 0,
            i + 1 <= k,
    ;
    assert(t * (i + 1) == t * i + t) by (nonlinear_arith);
    if t == UNITS_PER_POINT {
        assert(t * i <= UNITS_PER_POINT * u32::MAX) by (nonlinear_arith)
            requires
                t == UNITS_PER_POINT,
                i <= u32::MAX,
        ;
    }
}

fn tile_exec(extent: i64, n: u32) -> (t: i64)
    ensures
        t == tile(extent as int, n),
{
    proof {
        tile_bounds(extent as int, n);
    }
    if extent <= 0 {
        proof {
            if extent == 0 {
                let k = tiles(n) * UNITS_PER_POINT;
                assert(0int / k == 0) by (nonlinear_arith)
                    requires
                        k > 0,
                ;
            }
        }
        return UNITS_PER_POINT;
    }
    let k: i64 = if n == 0 {
        1
    } else {
        n as i64
    };
    let step: i64 = k * UNITS_PER_POINT;
    let q: i64 = extent / step;
    proof {
        assert(q * UNITS_PER_POINT <= extent) by (nonlinear_arith)
            requires
                extent > 0,
                k >= 1,
                step == k * UNITS_PER_POINT,
                q == extent as int / (step as int),
        ;
    }
    let t: i64 = q * UNITS_PER_POINT;
    if t >= UNITS_PER_POINT {
        t
    } else {
        UNITS_PER_POINT
    }
}

fn guess_index_exec(pos: i64, origin: i64, extent: i64, n: u32) -> (i: u32)
    ensures
        i == guess_index(pos as int, origin as int, extent as int, n),
        n > 0 ==> i < n,
{
    let t: i64 = tile_exec(extent, n);
    proof {
        tile_bounds(extent as int, n);
    }
    let d: i128 = pos as i128 - origin as i128;
    if d < 0 || n == 0 {
        proof {
            if d < 0 {
                assert(d as int / (t as int) < 0) by (nonlinear_arith)
                    requires
                        d < 0,
                        t > 0,
                ;
            }
        }
        return 0;
    }
    let q: i128 = d / t as i128;
    assert(q >= 0) by (nonlinear_arith)
        requires
            d >= 0,
            t > 0,
            q == d as int / (t as int),
    ;
    if q >= n as i128 {
        n - 1
    } else {
        q as u32
    }
}

/// Infer the cell from the position alone. Positions outside the frame belong
/// to the nearest column and row.
pub fn grid_guess_cell_by_pos(vf: &Rect, cols: u32, rows: u32, pos: Point) -> (r: (u32, u32))
    ensures
        r.0 == guess_index(pos.x as int, vf.x as int, vf.w as int, cols),
        r.1 == guess_index(pos.y as int, vf.y as int, vf.h as int, rows),
        cols > 0 ==> r.0 < cols,
        rows > 0 ==> r.1 < rows,
{
    (guess_index_exec(pos.x, vf.x, vf.w, cols), guess_index_exec(pos.y, vf.y, vf.h, rows))
}

impl Rect {
    /// The rectangle of a cell of the grid laid over this frame.
    pub fn grid_cell(&self, cols: u32, rows: u32, col: u32, row: u32) -> (r: Rect)
        requires
            self.on_desktop(),
            col < tiles(cols),
            row < tiles(rows),
        ensures
            r == cell_rect(*self, cols, rows, col, row),
            r.x == self.x + tile(self.w as int, cols) * col,
            r.y == self.y + tile(self.h as int, rows) * row,
            r.w == cell_extent(self.w as int, cols, col),
            r.h == cell_extent(self.h as int, rows, row),
            r.bounded(),
    {
        let (x, w): (i64, i64) = cell_axis(self.x, self.w, cols, col);
        let (y, h): (i64, i64) = cell_axis(self.y, self.h, rows, row);
        Rect { x, y, w, h }
    }

    /// The first cell, row by row, whose rectangle matches a window's position
    /// and size.
    pub fn grid_find_cell(&self, cols: u32, rows: u32, pos: Point, size: Size, eps: i64) -> (r: Option<
        (u32, u32),
    >)
        requires
            self.on_desktop(),
        ensures
            match r {
                Some((col, row)) => {
                    &&& col < cols
                    &&& row < rows
                    &&& occupies(*self, cols, rows, pos, size, eps, col, row)
                    &&& forall|c: u32, w: u32|
                        w < row && c < cols || w == row && c < col ==> !#[trigger] occupies(
                            *self,
                            cols,
                            rows,
                            pos,
                            size,
                            eps,
                            c,
                            w,
                        )
                },
                None => forall|c: u32, w: u32|
                    c < cols && w < rows ==> !#[trigger] occupies(
                        *self,
                        cols,
                        rows,
                        pos,
                        size,
                        eps,
                        c,
                        w,
                    ),
            },
            first_occupied(*self, cols, rows, pos, size, eps, r),
    {
        let window = Rect { x: pos.x, y: pos.y, w: size.width, h: size.height };
        let mut row: u32 = 0;
        while row < rows
            invariant
                row <= rows,
                self.on_desktop(),
                window == (Rect { x: pos.x, y: pos.y, w: size.width, h: size.height }),
                forall|c: u32, w: u32|
                    w < row && c < cols ==> !#[trigger] occupies(
                        *self,
                        cols,
                        rows,
                        pos,
                        size,
                        eps,
                        c,
                        w,
                    ),
            decreases rows - row,
        {
            let mut col: u32 = 0;
            while col < cols
                invariant
                    col <= cols,
                    row < rows,
                    self.on_desktop(),
                    window == (Rect { x: pos.x, y: pos.y, w: size.width, h: size.height }),
                    forall|c: u32, w: u32|
                        w < row && c < cols || w == row && c < col ==> !#[trigger] occupies(
                            *self,
                            cols,
                            rows,
                            pos,
                            size,
                            eps,
                            c,
                            w,
                        ),
                decreases cols - col,
            {
                let cell = self.grid_cell(cols, rows, col, row);
                if window.approx_eq(&cell, eps) {
                    assert(occupies(*self, cols, rows, pos, size, eps, col, row));
                    return Some((col, row));
                }
                col = col + 1;
            }
            row = row + 1;
        }
        None
    }
}

/// Whether an answer is the first cell, row by row, that a window fills, or none where it
/// fills none.
pub open spec fn first_occupied(
    vf: Rect,
    cols: u32,
    rows: u32,
    pos: Point,
    size: Size,
    eps: i64,
    r: Option<(u32, u32)>,
) -> bool {
    forall|c: u32, w: u32|
        c < cols && w < rows && #[trigger] occupies(vf, cols, rows, pos, size, eps, c, w) ==> {
            &&& r is Some
            &&& (r->0).1 < w || (r->0).1 == w && (r->0).0 <= c
        }
}

/// Whether a window fills a cell of the grid within `eps`.
pub open spec fn occupies(
    vf: Rect,
    cols: u32,
    rows: u32,
    pos: Point,
    size: Size,
    eps: i64,
    col: u32,
    row: u32,
) -> bool {
    Rect { x: pos.x, y: pos.y, w: size.width, h: size.height }.matches(
        cell_rect(vf, cols, rows, col, row),
        eps as int,
    )
}

fn cell_axis(origin: i64, extent: i64, n: u32, i: u32) -> (r: (i64, i64))
    requires
        -crate::screen::SCREEN_LIMIT <= origin <= crate::screen::SCREEN_LIMIT,
        -crate::screen::SCREEN_LIMIT <= extent <= crate::screen::SCREEN_LIMIT,
        i < tiles(n),
    ensures
        r.0 == origin + tile(extent as int, n) * i,
        r.1 == cell_extent(extent as int, n, i),
        -crate::geom::COORD_LIMIT <= r.0 <= crate::geom::COORD_LIMIT,
        -crate::geom::COORD_LIMIT <= r.1 <= crate::geom::COORD_LIMIT,
{
    let t: i64 = tile_exec(extent, n);
    let last: u32 = if n == 0 {
        0
    } else {
        n - 1
    };
    proof {
        tile_bounds(extent as int, n);
        tile_offset_bounds(extent as int, n, i);
        tile_offset_bounds(extent as int, n, last);
    }
    let offset: i64 = t * i as i64;
    let extent_i: i64 = if i == last {
        extent - t * last as i64
    } else {
        t
    };
    (origin + offset, extent_i)
}

/// Hold a requested column or row inside the grid.
pub fn clamp_to_grid(i: u32, n: u32) -> (r: u32)
    ensures
        r == clamp_cell(i, n),
        r < tiles(n),
        i < n ==> r == i,
{
    if n == 0 {
        0
    } else if i >= n {
        n - 1
    } else {
        i
    }
}

/// The neighbouring cell in a direction, or the same one at the border.
pub fn step_cell(dir: MoveDir, col: u32, row: u32, cols: u32, rows: u32) -> (r: (u32, u32))
    requires
        col < tiles(cols),
        row < tiles(rows),
    ensures
        r == stepped(dir, col, row, cols, rows),
        r.0 < tiles(cols),
        r.1 < tiles(rows),
{
    match dir {
        MoveDir::Left => (if col > 0 { col - 1 } else { 0 }, row),
        MoveDir::Right => {
            if cols > 0 && col < cols - 1 {
                (col + 1, row)
            } else {
                (col, row)
            }
        },
        MoveDir::Up => (col, if row > 0 { row - 1 } else { 0 }),
        MoveDir::Down => {
            if rows > 0 && row < rows - 1 {
                (col, row + 1)
            } else {
                (col, row)
            }
        },
    }
}

/// A guessed cell always lies inside a grid that has cells.
pub proof fn guess_stays_within_bounds(pos: int, origin: int, extent: int, n: u32)
    requires
        n > 0,
    ensures
        0 <= guess_index(pos, origin, extent, n) < n,
{
}

/// Cells of a frame with room for every tile lie inside the frame.
pub proof fn cells_stay_inside_frame(vf: Rect, cols: u32, rows: u32, col: u32, row: u32)
    requires
        vf.on_desktop(),
        roomy(vf.w as int, cols),
        roomy(vf.h as int, rows),
        col < tiles(cols),
        row < tiles(rows),
    ensures
        vf.encloses(cell_rect(vf, cols, rows, col, row)),
        cell_rect(vf, cols, rows, col, row).w >= UNITS_PER_POINT,
        cell_rect(vf, cols, rows, col, row).h >= UNITS_PER_POINT,
{
    axis_stays_inside(vf.w as int, cols, col);
    axis_stays_inside(vf.h as int, rows, row);
}

proof fn axis_stays_inside(extent: int, n: u32, i: u32)
    requires
        -crate::screen::SCREEN_LIMIT <= extent <= crate::screen::SCREEN_LIMIT,
        i < tiles(n),
        roomy(extent, n),
    ensures
        0 <= tile(extent, n) * i,
        UNITS_PER_POINT <= cell_extent(extent, n, i),
        tile(extent, n) * i + cell_extent(extent, n, i) <= extent,
        i + 1 == tiles(n) ==> tile(extent, n) * i + cell_extent(extent, n, i) == extent,
        i + 1 < tiles(n) ==> tile(extent, n) * i + cell_extent(extent, n, i) == tile(extent, n) * (i
            + 1),
{
    tile_bounds(extent, n);
    tile_offset_bounds(extent, n, i);
    if i + 1 == tiles(n) {
        assert(tile(extent, n) * (tiles(n) - 1) == tile(extent, n) * i);
    }
}

/// Neighbouring cells of a row meet: each begins where the one before it ends,
/// the first begins at the frame's edge and the last ends at the other.
pub proof fn cells_tile_the_frame(vf: Rect, cols: u32, rows: u32, col: u32, row: u32)
    requires
        vf.on_desktop(),
        roomy(vf.w as int, cols),
        roomy(vf.h as int, rows),
        col < tiles(cols),
        row < tiles(rows),
    ensures
        cell_rect(vf, cols, rows, 0, row).x == vf.x,
        cell_rect(vf, cols, rows, col, 0).y == vf.y,
        col + 1 < tiles(cols) ==> cell_rect(vf, cols, rows, col, row).right_edge() == cell_rect(
            vf,
            cols,
            rows,
            (col + 1) as u32,
            row,
        ).x,
        row + 1 < tiles(rows) ==> cell_rect(vf, cols, rows, col, row).top_edge() == cell_rect(
            vf,
            cols,
            rows,
            col,
            (row + 1) as u32,
        ).y,
        col + 1 == tiles(cols) ==> cell_rect(vf, cols, rows, col, row).right_edge()
            == vf.right_edge(),
        row + 1 == tiles(rows) ==> cell_rect(vf, cols, rows, col, row).top_edge() == vf.top_edge(),
{
    axis_stays_inside(vf.w as int, cols, col);
    axis_stays_inside(vf.h as int, rows, row);
    axis_stays_inside(vf.w as int, cols, 0);
    axis_stays_inside(vf.h as int, rows, 0);
    if col + 1 < tiles(cols) {
        axis_stays_inside(vf.w as int, cols, (col + 1) as u32);
    }
    if row + 1 < tiles(rows) {
        axis_stays_inside(vf.h as int, rows, (row + 1) as u32);
    }
}

/// The cell guessed for any position inside a cell is that cell.
pub proof fn guess_recovers_cell(vf: Rect, cols: u32, rows: u32, col: u32, row: u32, p: Point)
    requires
        vf.on_desktop(),
        roomy(vf.w as int, cols),
        roomy(vf.h as int, rows),
        col < cols,
        row < rows,
        cell_rect(vf, cols, rows, col, row).x <= p.x < cell_rect(
            vf,
            cols,
            rows,
            col,
            row,
        ).right_edge(),
        cell_rect(vf, cols, rows, col, row).y <= p.y < cell_rect(
            vf,
            cols,
            rows,
            col,
            row,
        ).top_edge(),
    ensures
        guess_index(p.x as int, vf.x as int, vf.w as int, cols) == col,
        guess_index(p.y as int, vf.y as int, vf.h as int, rows) == row,
{
    axis_guess_recovers(p.x as int, vf.x as int, vf.w as int, cols, col);
    axis_guess_recovers(p.y as int, vf.y as int, vf.h as int, rows, row);
}

proof fn axis_guess_recovers(pos: int, origin: int, extent: int, n: u32, i: u32)
    requires
        -crate::screen::SCREEN_LIMIT <= extent <= crate::screen::SCREEN_LIMIT,
        -crate::screen::SCREEN_LIMIT <= origin <= crate::screen::SCREEN_LIMIT,
        roomy(extent, n),
        i < n,
        (origin + tile(extent, n) * i) as i64 <= pos < (origin + tile(extent, n) * i) as i64
            + cell_extent(extent, n, i) as i64,
    ensures
        guess_index(pos, origin, extent, n) == i,
{
    axis_stays_inside(extent, n, i);
    tile_bounds(extent, n);
    let t = tile(extent, n);
    let d = pos - origin;
    assert(t * i <= d);
    assert(d / t >= i) by (nonlinear_arith)
        requires
            t > 0,
            t * i <= d,
    ;
    if i + 1 < n {
        assert(d < t * (i + 1));
        assert(d / t < i + 1) by (nonlinear_arith)
            requires
                t > 0,
                d < t * (i + 1),
        ;
    }
}

/// A step stays in the grid, and the opposite step comes back from it unless
/// the border stopped the first one.
pub proof fn opposite_steps_cancel(col: u32, row: u32, cols: u32, rows: u32)
    requires
        col < cols,
        row < rows,
    ensures
        col + 1 < cols ==> {
            let (c, r) = stepped(MoveDir::Right, col, row, cols, rows);
            stepped(MoveDir::Left, c, r, cols, rows) == (col, row)
        },
        row + 1 < rows ==> {
            let (c, r) = stepped(MoveDir::Down, col, row, cols, rows);
            stepped(MoveDir::Up, c, r, cols, rows) == (col, row)
        },
        col + 1 == cols ==> stepped(MoveDir::Right, col, row, cols, rows) == (col, row),
        row + 1 == rows ==> stepped(MoveDir::Down, col, row, cols, rows) == (col, row),
{
}

} // verus!
