//! Board geometry: the cell grid, where a cell lives in the instance buffers,
//! and how the compute dispatch tiles the grid.
use vstd::prelude::*;

verus! {

/// Number of cells along the horizontal axis of the board.
pub const GRID_WIDTH: u32 = 400;

/// Number of cells along the vertical axis of the board.
pub const GRID_HEIGHT: u32 = 300;

/// Side of the square tile of cells that one compute workgroup updates; it has
/// to match the `@workgroup_size` of the compute shader.
pub const WORKGROUP_SIZE: u32 = 16;

/// Bytes that one cell takes in an instance buffer.
pub const INSTANCE_SIZE: u64 = 4;

/// Number of cells on the board.
pub open spec fn cell_count() -> int {
    GRID_WIDTH * GRID_HEIGHT
}

/// Whether `(x, y)` names a cell of the board.
pub open spec fn in_grid(x: int, y: int) -> bool {
    0 <= x < GRID_WIDTH && 0 <= y < GRID_HEIGHT
}

/// Row-major position of cell `(x, y)` in an instance buffer.
pub open spec fn cell_index(x: int, y: int) -> int {
    y * GRID_WIDTH + x
}

/// `a / b`, rounded up.
pub open spec fn ceil_div(a: int, b: int) -> int {
    (a + b - 1) / b
}

/// Integer division rounding up: the smallest `q` with `q * b >= a`.
pub fn div_ceil(a: u32, b: u32) -> (q: u32)
    requires
        b > 0,
    ensures
        q == ceil_div(a as int, b as int),
        q * b >= a,
        q == 0 || (q - 1) * b < a,
{
    let d = a / b;
    let r = a % b;
    proof {
        vstd::arithmetic::div_mod::lemma_fundamental_div_mod(a as int, b as int);
        assert(a == d * b + r) by (nonlinear_arith)
            requires
                a == b * d + r,
        ;
        let q = if r > 0 { d + 1 } else { d as int };
        assert(q * b == d * b + if r > 0 { b as int } else { 0 }) by (nonlinear_arith)
            requires
                q == if r > 0 { d + 1 } else { d as int },
        ;
        assert((a + b - 1) == q * b + (if r > 0 { r - 1 } else { b - 1 }));
        vstd::arithmetic::div_mod::lemma_fundamental_div_mod_converse(
            a + b - 1,
            b as int,
            q,
            if r > 0 { r - 1 } else { b - 1 },
        );
        if q > 0 {
            assert((q - 1) * b == q * b - b) by (nonlinear_arith);
        }
        if r > 0 {
            assert(d < u32::MAX) by (nonlinear_arith)
                requires
                    a == d * b + r,
                    b >= 2,
                    a <= u32::MAX,
                    d >= 0,
            ;
        }
    }
    if r > 0 {
        d + 1
    } else {
        d
    }
}

/// Number of workgroups the simulation dispatches along x and along y.
pub fn workgroup_counts() -> (counts: (u32, u32))
    ensures
        counts.0 == ceil_div(GRID_WIDTH as int, WORKGROUP_SIZE as int),
        counts.1 == ceil_div(GRID_HEIGHT as int, WORKGROUP_SIZE as int),
{
    (div_ceil(GRID_WIDTH, WORKGROUP_SIZE), div_ceil(GRID_HEIGHT, WORKGROUP_SIZE))
}

/// The dispatch covers the board exactly: every cell falls in a dispatched
/// workgroup, and every dispatched workgroup holds at least one cell.
pub proof fn lemma_dispatch_covers_grid(x: int, y: int)
    requires
        in_grid(x, y),
    ensures
        x / (WORKGROUP_SIZE as int) < ceil_div(GRID_WIDTH as int, WORKGROUP_SIZE as int),
        y / (WORKGROUP_SIZE as int) < ceil_div(GRID_HEIGHT as int, WORKGROUP_SIZE as int),
        (ceil_div(GRID_WIDTH as int, WORKGROUP_SIZE as int) - 1) * WORKGROUP_SIZE < GRID_WIDTH,
        (ceil_div(GRID_HEIGHT as int, WORKGROUP_SIZE as int) - 1) * WORKGROUP_SIZE < GRID_HEIGHT,
{
    assert(ceil_div(GRID_WIDTH as int, WORKGROUP_SIZE as int) == 25);
    assert(ceil_div(GRID_HEIGHT as int, WORKGROUP_SIZE as int) == 19);
}

/// The board's cell for a signed grid position, if the position lies on the board.
pub fn cell_from_grid_position(grid_x: i32, grid_y: i32) -> (cell: Option<(u32, u32)>)
    ensures
        cell is Some <==> in_grid(grid_x as int, grid_y as int),
        cell matches Some((x, y)) ==> x == grid_x && y == grid_y,
{
    if grid_x >= 0 && grid_x < GRID_WIDTH as i32 && grid_y >= 0 && grid_y < GRID_HEIGHT as i32 {
        Some((grid_x as u32, grid_y as u32))
    } else {
        None
    }
}

/// Where cell `(x, y)` starts in an instance buffer, in bytes, or `None` when
/// `(x, y)` is off the board.
pub fn cell_byte_offset(x: u32, y: u32) -> (offset: Option<u64>)
    ensures
        offset is Some <==> in_grid(x as int, y as int),
        offset matches Some(o) ==> o == cell_index(x as int, y as int) * INSTANCE_SIZE,
{
    if x >= GRID_WIDTH || y >= GRID_HEIGHT {
        return None;
    }
    let index = (y * GRID_WIDTH + x) as u64;
    Some(index * INSTANCE_SIZE)
}

/// Distinct cells occupy distinct, non-overlapping slots of an instance buffer,
/// and every slot lies inside the buffer.
pub proof fn lemma_cell_index_injective(x1: int, y1: int, x2: int, y2: int)
    requires
        in_grid(x1, y1),
        in_grid(x2, y2),
    ensures
        0 <= cell_index(x1, y1) < cell_count(),
        cell_index(x1, y1) == cell_index(x2, y2) ==> x1 == x2 && y1 == y2,
{
}

/// Cells are stored row by row: the cell to the right of another comes next,
/// the first cell of a row comes right after the last cell of the row below,
/// and cell `(0, 0)` comes first.
pub proof fn lemma_cells_row_major(x: int, y: int)
    ensures
        cell_index(0, 0) == 0,
        in_grid(x, y) <==> (0 <= x < 400 && 0 <= y < 300),
        in_grid(x, y) && x + 1 < GRID_WIDTH ==> cell_index(x + 1, y) == cell_index(x, y) + 1,
        in_grid(x, y) && y + 1 < GRID_HEIGHT ==> cell_index(0, y + 1) == cell_index(
            GRID_WIDTH - 1,
            y,
        ) + 1,
        cell_count() == 120_000,
{
}

} // verus!
