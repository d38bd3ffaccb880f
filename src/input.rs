//! Key presses to a new direction, with the guard against reversing into
//! the neck.
use vstd::prelude::*;
use crate::grid::Cell;
use crate::snake::{Direction, Snake, dir_dx, dir_dy};

verus! {

/// Which of the four arrow keys were freshly pressed in this frame.
#[derive(Clone, Copy, Debug, PartialEq, Eq, Structural)]
pub struct KeyPresses {
    pub up: bool,
    pub down: bool,
    pub left: bool,
    pub right: bool,
}

impl KeyPresses {
    /// No key pressed.
    pub fn none() -> (r: KeyPresses)
        ensures
            !r.up && !r.down && !r.left && !r.right,
    {
        KeyPresses { up: false, down: false, left: false, right: false }
    }
}

/// The vector from the second segment to the head, or zero for a snake of
/// one segment.
pub open spec fn neck_vector(segs: Seq<Cell>) -> (int, int) {
    if segs.len() > 1 {
        ((segs[0].x - segs[1].x) as int, (segs[0].y - segs[1].y) as int)
    } else {
        (0, 0)
    }
}

/// A key for `d` may turn the snake unless `d` points straight back along
/// the neck.
pub open spec fn turn_allowed(segs: Seq<Cell>, d: Direction) -> bool {
    neck_vector(segs) != (-dir_dx(d), -dir_dy(d))
}

/// The direction after this frame's keys: of the allowed keys pressed, the
/// last in the order up, down, left, right wins; with none the direction
/// stays.
pub open spec fn chosen_direction(segs: Seq<Cell>, current: Direction, keys: KeyPresses) -> Direction {
    if keys.right && turn_allowed(segs, Direction::Right) {
        Direction::Right
    } else if keys.left && turn_allowed(segs, Direction::Left) {
        Direction::Left
    } else if keys.down && turn_allowed(segs, Direction::Down) {
        Direction::Down
    } else if keys.up && turn_allowed(segs, Direction::Up) {
        Direction::Up
    } else {
        current
    }
}

impl Snake {
    /// Whether a key for `d` may turn the snake now, judged from the body.
    pub fn may_turn(&self, d: Direction) -> (r: bool)
        requires
            self.segments@.len() >= 1,
        ensures
            r == turn_allowed(self.segments@, d),
    {
        if self.segments.len() > 1 {
            let vx = self.segments[0].x as i64 - self.segments[1].x as i64;
            let vy = self.segments[0].y as i64 - self.segments[1].y as i64;
            !(vx == -(d.dx() as i64) && vy == -(d.dy() as i64))
        } else {
            true
        }
    }

    /// Applies this frame's key presses to the direction; the body is not
    /// touched.
    pub fn apply_keys(&mut self, keys: KeyPresses)
        requires
            old(self).segments@.len() >= 1,
        ensures
            final(self).direction == chosen_direction(old(self).segments@, old(self).direction, keys),
            final(self).segments@ == old(self).segments@,
    {
        let up = keys.up && self.may_turn(Direction::Up);
        let down = keys.down && self.may_turn(Direction::Down);
        let left = keys.left && self.may_turn(Direction::Left);
        let right = keys.right && self.may_turn(Direction::Right);
        if up {
            self.direction = Direction::Up;
        }
        if down {
            self.direction = Direction::Down;
        }
        if left {
            self.direction = Direction::Left;
        }
        if right {
            self.direction = Direction::Right;
        }
    }
}

} // verus!
