//! The snake: its body, head first, and its direction of travel.
use vstd::prelude::*;
use crate::grid::{Cell, contains_cell, in_bounds, wrap, wrapped};

verus! {

/// A direction of travel on the grid; `Up` is towards smaller `y`.
#[derive(Clone, Copy, Debug, PartialEq, Eq, Structural)]
pub enum Direction {
    Up,
    Down,
    Left,
    Right,
}

/// Horizontal component of a direction's unit vector.
pub open spec fn dir_dx(d: Direction) -> int {
    match d {
        Direction::Left => -1,
        Direction::Right => 1,
        _ => 0,
    }
}

/// Vertical component of a direction's unit vector.
pub open spec fn dir_dy(d: Direction) -> int {
    match d {
        Direction::Up => -1,
        Direction::Down => 1,
        _ => 0,
    }
}

impl Direction {
    pub fn dx(&self) -> (r: i32)
        ensures
            r == dir_dx(*self),
    {
        match self {
            Direction::Left => -1,
            Direction::Right => 1,
            _ => 0,
        }
    }

    pub fn dy(&self) -> (r: i32)
        ensures
            r == dir_dy(*self),
    {
        match self {
            Direction::Up => -1,
            Direction::Down => 1,
            _ => 0,
        }
    }
}

/// Where the head goes next: one cell along `dir`, wrapped onto the grid.
pub open spec fn next_head(segs: Seq<Cell>, dir: Direction, width: int, height: int) -> Cell {
    wrapped(
        Cell { x: (segs[0].x + dir_dx(dir)) as i32, y: (segs[0].y + dir_dy(dir)) as i32 },
        width,
        height,
    )
}

/// The body after the head moves to `head`: the old tail stays only when
/// the snake grew.
pub open spec fn advanced(segs: Seq<Cell>, head: Cell, grew: bool) -> Seq<Cell> {
    if grew {
        seq![head] + segs
    } else {
        seq![head] + segs.drop_last()
    }
}

/// Every cell of the body lies on the grid.
pub open spec fn all_in_bounds(segs: Seq<Cell>, width: int, height: int) -> bool {
    forall|i: int| 0 <= i < segs.len() ==> #[trigger] in_bounds(segs[i], width, height)
}

pub struct Snake {
    pub direction: Direction,
    /// The occupied cells, head at index 0 and tail last.
    pub segments: Vec<Cell>,
}

impl Snake {
    /// A snake of one segment, on the grid.
    pub open spec fn wf(&self, width: int, height: int) -> bool {
        &&& self.segments@.len() >= 1
        &&& all_in_bounds(self.segments@, width, height)
    }

    /// A snake of one segment at `start`, heading right.
    pub fn new_at(start: Cell) -> (r: Snake)
        ensures
            r.segments@ == seq![start],
            r.direction == Direction::Right,
    {
        let mut segments: Vec<Cell> = Vec::new();
        segments.push(start);
        Snake { direction: Direction::Right, segments }
    }

    /// The starting snake: one segment at (0, 0), heading right.
    pub fn new() -> (r: Snake)
        ensures
            r.segments@ == seq![Cell { x: 0, y: 0 }],
            r.direction == Direction::Right,
    {
        Snake::new_at(Cell { x: 0, y: 0 })
    }

    pub fn len(&self) -> (r: usize)
        ensures
            r == self.segments@.len(),
    {
        self.segments.len()
    }

    pub fn head(&self) -> (r: Cell)
        requires
            self.segments@.len() >= 1,
        ensures
            r == self.segments@[0],
    {
        self.segments[0]
    }

    /// The cell the head moves to next; the snake itself is left as it is.
    pub fn step(&self, width: i32, height: i32) -> (r: Cell)
        requires
            width > 0,
            height > 0,
            self.wf(width as int, height as int),
        ensures
            r == next_head(self.segments@, self.direction, width as int, height as int),
            in_bounds(r, width as int, height as int),
    {
        let head = self.segments[0];
        assert(in_bounds(self.segments@[0], width as int, height as int));
        let candidate = Cell { x: head.x + self.direction.dx(), y: head.y + self.direction.dy() };
        wrap(candidate, width, height)
    }

    /// Whether `cell` is one of the body's cells.
    pub fn collides_with(&self, cell: Cell) -> (r: bool)
        ensures
            r == self.segments@.contains(cell),
    {
        contains_cell(&self.segments, cell)
    }

    /// Puts `head` in front; drops the tail unless the snake grew.
    pub fn advance(&mut self, head: Cell, grew: bool)
        requires
            old(self).segments@.len() >= 1,
        ensures
            final(self).segments@ == advanced(old(self).segments@, head, grew),
            final(self).direction == old(self).direction,
    {
        self.segments.insert(0, head);
        if !grew {
            self.segments.pop();
        }
        proof {
            let s = old(self).segments@;
            if !grew {
                assert(s.insert(0, head).drop_last() =~= seq![head] + s.drop_last());
            } else {
                assert(s.insert(0, head) =~= seq![head] + s);
            }
        }
    }
}

} // verus!
