//! Grid geometry: window pixels to cells, and toroidal wraparound.
use vstd::prelude::*;

verus! {

/// Side of one square cell, in pixels.
pub const CELL_SIZE: u32 = 16;

/// A cell of the grid; `x` grows to the right and `y` downwards.
#[derive(Clone, Copy, Debug, PartialEq, Eq, Structural)]
pub struct Cell {
    pub x: i32,
    pub y: i32,
}

impl Cell {
    pub fn new(x: i32, y: i32) -> (r: Cell)
        ensures
            r.x == x,
            r.y == y,
    {
        Cell { x, y }
    }
}

/// A cell lies on a grid of `width` by `height` cells.
pub open spec fn in_bounds(c: Cell, width: int, height: int) -> bool {
    0 <= c.x < width && 0 <= c.y < height
}

/// One coordinate after wraparound: past the last index it comes back to 0,
/// below 0 it goes to the last index.
pub open spec fn wrap_coord(v: int, dim: int) -> int {
    if v > dim - 1 {
        0
    } else if v < 0 {
        dim - 1
    } else {
        v
    }
}

pub open spec fn wrapped(c: Cell, width: int, height: int) -> Cell {
    Cell { x: wrap_coord(c.x as int, width) as i32, y: wrap_coord(c.y as int, height) as i32 }
}

/// Number of whole cells that fit into a window of the given pixel size.
pub fn grid_dims(pixel_width: u32, pixel_height: u32) -> (r: (i32, i32))
    ensures
        r.0 == pixel_width as int / CELL_SIZE as int,
        r.1 == pixel_height as int / CELL_SIZE as int,
{
    ((pixel_width / CELL_SIZE) as i32, (pixel_height / CELL_SIZE) as i32)
}

fn wrap_one(v: i32, dim: i32) -> (r: i32)
    requires
        dim > 0,
    ensures
        r == wrap_coord(v as int, dim as int),
        0 <= r < dim,
{
    if v > dim - 1 {
        0
    } else if v < 0 {
        dim - 1
    } else {
        v
    }
}

/// Brings a candidate cell back onto the grid, each coordinate on its own:
/// whatever the cell, the result lies on the grid.
pub fn wrap(c: Cell, width: i32, height: i32) -> (r: Cell)
    requires
        width > 0,
        height > 0,
    ensures
        r == wrapped(c, width as int, height as int),
        in_bounds(r, width as int, height as int),
{
    Cell { x: wrap_one(c.x, width), y: wrap_one(c.y, height) }
}

/// Pixel position of the centre of a cell: `cell * 16 + 8` on each axis.
pub fn pixel_center(c: Cell) -> (r: (i64, i64))
    ensures
        r.0 == c.x * CELL_SIZE + CELL_SIZE / 2,
        r.1 == c.y * CELL_SIZE + CELL_SIZE / 2,
{
    (c.x as i64 * CELL_SIZE as i64 + (CELL_SIZE / 2) as i64, c.y as i64 * CELL_SIZE as i64 + (CELL_SIZE / 2) as i64)
}

} // verus!

verus! {

/// Whether `c` is one of `cells`.
pub fn contains_cell(cells: &Vec<Cell>, c: Cell) -> (r: bool)
    ensures
        r == cells@.contains(c),
{
    let mut i: usize = 0;
    while i < cells.len()
        invariant
            0 <= i <= cells@.len(),
            forall|j: int| 0 <= j < i ==> cells@[j] != c,
        decreases cells@.len() - i,
    {
        if cells[i] == c {
            return true;
        }
        i += 1;
    }
    false
}

} // verus!

verus! {

/// Wraparound lands on the grid, whatever the cell.
pub proof fn lemma_wrapped_in_bounds(c: Cell, width: int, height: int)
    requires
        0 < width <= i32::MAX,
        0 < height <= i32::MAX,
    ensures
        in_bounds(wrapped(c, width, height), width, height),
{
}

} // verus!
