//! Fruit placement: a random cell of the grid that the snake does not hold.
use vstd::prelude::*;
use crate::grid::{Cell, contains_cell, in_bounds};

verus! {

/// Random cells drawn before falling back to a draw among the free cells.
pub const MAX_SAMPLES: u32 = 64;

/// Relies on macroquad::rand::gen_range on `usize` (quad-rand's
/// `RandomRange`): for `0 < n <= u32::MAX` the value lies in `[0, n)`. It
/// comes from a global pseudo-random state, so nothing more is known of it.
#[verifier::external_body]
fn random_below(n: usize) -> (r: usize)
    requires
        0 < n <= u32::MAX,
    ensures
        r < n,
{
    macroquad::rand::gen_range(0usize, n)
}

/// Every cell of the grid is among `cells`.
pub open spec fn covers_grid(cells: Seq<Cell>, width: int, height: int) -> bool {
    forall|c: Cell| in_bounds(c, width, height) ==> #[trigger] cells.contains(c)
}

/// The cells of the grid that are not among `excluded`, row by row.
pub fn free_cells(excluded: &Vec<Cell>, width: i32, height: i32) -> (r: Vec<Cell>)
    requires
        width > 0,
        height > 0,
    ensures
        forall|c: Cell| #[trigger] r@.contains(c) <==> (in_bounds(c, width as int, height as int)
            && !excluded@.contains(c)),
{
    let mut r: Vec<Cell> = Vec::new();
    let mut y: i32 = 0;
    while y < height
        invariant
            0 <= y <= height,
            width > 0,
            forall|c: Cell| #[trigger] r@.contains(c) <==> (in_bounds(c, width as int, height as int)
                && c.y < y && !excluded@.contains(c)),
        decreases height - y,
    {
        let mut x: i32 = 0;
        while x < width
            invariant
                0 <= x <= width,
                0 <= y < height,
                forall|c: Cell| #[trigger] r@.contains(c) <==> (in_bounds(c, width as int, height as int)
                    && (c.y < y || (c.y == y && c.x < x)) && !excluded@.contains(c)),
            decreases width - x,
        {
            let c = Cell { x, y };
            if !contains_cell(excluded, c) {
                let ghost before = r@;
                r.push(c);
                proof {
                    assert forall|d: Cell| #[trigger] r@.contains(d) <==> (before.contains(d) || d == c) by {
                        if r@.contains(d) {
                            let k = choose|k: int| 0 <= k < r@.len() && r@[k] == d;
                            if k < before.len() {
                                assert(before[k] == d);
                            }
                        }
                        if d == c {
                            assert(r@[before.len() as int] == c);
                        }
                        if before.contains(d) {
                            let k = choose|k: int| 0 <= k < before.len() && before[k] == d;
                            assert(r@[k] == d);
                        }
                    }
                }
            }
            x += 1;
        }
        y += 1;
    }
    r
}

/// A new fruit cell: on the grid and not among `excluded`, drawn at random.
/// Up to `MAX_SAMPLES` random cells are tried; after that one of the free
/// cells is drawn. There is none only when `excluded` covers the grid, and
/// then the result is `None`.
pub fn relocate(excluded: &Vec<Cell>, width: i32, height: i32) -> (r: Option<Cell>)
    requires
        width > 0,
        height > 0,
    ensures
        match r {
            Some(c) => in_bounds(c, width as int, height as int) && !excluded@.contains(c),
            None => covers_grid(excluded@, width as int, height as int),
        },
{
    let mut tries: u32 = 0;
    while tries < MAX_SAMPLES
        invariant
            width > 0,
            height > 0,
        decreases MAX_SAMPLES - tries,
    {
        let c = Cell {
            x: random_below(width as usize) as i32,
            y: random_below(height as usize) as i32,
        };
        if !contains_cell(excluded, c) {
            return Some(c);
        }
        tries += 1;
    }
    let free = free_cells(excluded, width, height);
    if free.len() == 0 {
        assert forall|c: Cell| in_bounds(c, width as int, height as int) implies #[trigger] excluded@.contains(c) by {
            if !excluded@.contains(c) {
                assert(free@.contains(c));
            }
        }
        None
    } else {
        // The generator draws below `u32::MAX` at most; on a grid with more
        // free cells than that the draw is among the first of them.
        let n: usize = if free.len() > u32::MAX as usize {
            u32::MAX as usize
        } else {
            free.len()
        };
        let c = free[random_below(n)];
        assert(free@.contains(c));
        Some(c)
    }
}

} // verus!
