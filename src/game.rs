//! The game state and its per-frame update: input, timer, and on each fired
//! step the move, the collision check, growth and the new fruit.
use vstd::prelude::*;
use crate::fruit::{covers_grid, relocate};
use crate::grid::{Cell, in_bounds};
use crate::input::{KeyPresses, chosen_direction};
use crate::snake::{Direction, Snake, advanced, all_in_bounds, next_head};
use crate::timer::{MOVE_INTERVAL_MICROS, Timer, accumulated, elapsed};

verus! {

/// What the game is, apart from its timer.
pub struct GameView {
    pub segments: Seq<Cell>,
    pub direction: Direction,
    pub fruit: Cell,
    pub width: int,
    pub height: int,
    pub running: bool,
}

pub struct GameState {
    pub snake: Snake,
    pub fruit: Cell,
    pub timer: Timer,
    pub width: i32,
    pub height: i32,
    /// False once the snake has run into itself.
    pub running: bool,
}

impl View for GameState {
    type V = GameView;

    open spec fn view(&self) -> GameView {
        GameView {
            segments: self.snake.segments@,
            direction: self.snake.direction,
            fruit: self.fruit,
            width: self.width as int,
            height: self.height as int,
            running: self.running,
        }
    }
}

/// The cell the head moves to on the next step.
pub open spec fn head_target(g: GameView) -> Cell {
    next_head(g.segments, g.direction, g.width, g.height)
}

/// The head reaches the fruit on the next step.
pub open spec fn eats(g: GameView) -> bool {
    head_target(g) == g.fruit
}

/// One step of the simulation from `a` to `b`. The head moves on and the
/// tail follows unless the fruit was eaten. A fruit that was eaten is placed
/// anew off the snake, or, where the snake covers the grid, stays where it
/// was. The game goes on unless the head ran into the body as it was before
/// the step, or no free cell was left for the fruit.
pub open spec fn ticked(a: GameView, b: GameView) -> bool {
    let head = head_target(a);
    let grew = eats(a);
    &&& b.width == a.width
    &&& b.height == a.height
    &&& b.direction == a.direction
    &&& b.segments == advanced(a.segments, head, grew)
    &&& !grew ==> b.fruit == a.fruit
    &&& grew ==> ((in_bounds(b.fruit, b.width, b.height) && !b.segments.contains(b.fruit)) || (
    covers_grid(b.segments, b.width, b.height) && b.fruit == a.fruit))
    &&& b.running == (!a.segments.contains(head) && (grew ==> !b.segments.contains(b.fruit)))
}

/// `a` with its direction replaced by `d`.
pub open spec fn turned(a: GameView, d: Direction) -> GameView {
    GameView { direction: d, ..a }
}

/// One frame from `a` to `b`: the direction may change, and at most one
/// step is taken.
pub open spec fn frame_step(a: GameView, b: GameView) -> bool {
    b == turned(a, b.direction) || ticked(turned(a, b.direction), b)
}

impl GameState {
    /// On the grid, with a body that holds no cell twice while the game runs.
    pub open spec fn wf(&self) -> bool {
        &&& self.width > 0
        &&& self.height > 0
        &&& self.snake.wf(self.width as int, self.height as int)
        &&& in_bounds(self.fruit, self.width as int, self.height as int)
        &&& self.running ==> self.snake.segments@.no_duplicates()
    }

    /// The start of a game on a grid of `width` by `height` cells: a snake
    /// of one segment at (0, 0) heading right, the fruit in the middle, the
    /// timer at zero with the standard interval.
    pub fn new(width: i32, height: i32) -> (r: GameState)
        requires
            width > 0,
            height > 0,
        ensures
            r.wf(),
            r.running,
            r.snake.segments@ == seq![Cell { x: 0, y: 0 }],
            r.snake.direction == Direction::Right,
            r.fruit == (Cell { x: (width / 2) as i32, y: (height / 2) as i32 }),
            r.width == width,
            r.height == height,
            r.timer.prev_time == 0,
            r.timer.move_timer == 0,
            r.timer.move_interval == MOVE_INTERVAL_MICROS,
    {
        let snake = Snake::new();
        assert(all_in_bounds(snake.segments@, width as int, height as int));
        GameState {
            snake,
            fruit: Cell { x: width / 2, y: height / 2 },
            timer: Timer::new(MOVE_INTERVAL_MICROS),
            width,
            height,
            running: true,
        }
    }

    /// One step of the simulation, whatever the timer says.
    pub fn tick(&mut self)
        requires
            old(self).wf(),
            old(self).running,
        ensures
            final(self).wf(),
            ticked(old(self)@, final(self)@),
            final(self).timer == old(self).timer,
    {
        let ghost a = self@;
        let head = self.snake.step(self.width, self.height);
        let collided = self.snake.collides_with(head);
        let grew = head == self.fruit;
        self.snake.advance(head, grew);
        let mut placed = true;
        if grew {
            match relocate(&self.snake.segments, self.width, self.height) {
                Some(f) => {
                    self.fruit = f;
                },
                None => {
                    placed = false;
                },
            }
        }
        if collided || !placed {
            self.running = false;
        }
        proof {
            let s = a.segments;
            let t = self.snake.segments@;
            assert forall|i: int| 0 <= i < t.len() implies #[trigger] in_bounds(
                t[i],
                self.width as int,
                self.height as int,
            ) by {
                if i > 0 {
                    assert(t[i] == s[i - 1]);
                }
            }
            if self.running {
                assert forall|i: int, j: int| 0 <= i < t.len() && 0 <= j < t.len() && i != j implies t[i]
                    != t[j] by {
                    if i == 0 {
                        assert(t[j] == s[j - 1]);
                    } else if j == 0 {
                        assert(t[i] == s[i - 1]);
                    } else {
                        assert(t[i] == s[i - 1]);
                        assert(t[j] == s[j - 1]);
                    }
                }
            }
        }
    }

    /// One frame of the game loop at time `now` (microseconds since the
    /// start) with this frame's key presses: the keys may turn the snake,
    /// then the timer decides whether the snake takes one step. Returns
    /// whether it did.
    pub fn frame(&mut self, now: u64, keys: KeyPresses) -> (fired: bool)
        requires
            old(self).wf(),
            old(self).running,
        ensures
            final(self).wf(),
            frame_step(old(self)@, final(self)@),
            fired == (old(self).timer.move_timer >= old(self).timer.move_interval),
            fired ==> ticked(
                turned(old(self)@, chosen_direction(old(self)@.segments, old(self)@.direction, keys)),
                final(self)@,
            ),
            !fired ==> final(self)@ == turned(
                old(self)@,
                chosen_direction(old(self)@.segments, old(self)@.direction, keys),
            ),
            final(self).timer.prev_time == now,
            final(self).timer.move_interval == old(self).timer.move_interval,
            fired ==> final(self).timer.move_timer == 0,
            !fired ==> final(self).timer.move_timer == accumulated(
                old(self).timer.move_timer,
                elapsed(old(self).timer.prev_time, now),
            ),
    {
        self.snake.apply_keys(keys);
        let fired = self.timer.advance(now);
        if fired {
            self.tick();
        }
        fired
    }
}

/// A step lengthens the snake by exactly one cell when the head moves onto
/// the fruit, and leaves its length as it was otherwise.
pub proof fn lemma_tick_length(a: GameView, b: GameView)
    requires
        a.segments.len() >= 1,
        ticked(a, b),
    ensures
        b.segments.len() == a.segments.len() + if eats(a) {
            1int
        } else {
            0int
        },
        b.segments.len() >= a.segments.len(),
{
}

/// Over any run of frames, each one turning the snake or stepping it, the
/// snake's length never decreases.
pub proof fn lemma_length_never_decreases(run: Seq<GameView>)
    requires
        forall|k: int|
            0 <= k < run.len() - 1 ==> (#[trigger] run[k]).segments.len() >= 1 && frame_step(
                run[k],
                run[k + 1],
            ),
    ensures
        forall|i: int, j: int|
            0 <= i <= j < run.len() ==> (#[trigger] run[i]).segments.len() <= (#[trigger] run[j]).segments.len(),
    decreases run.len(),
{
    if run.len() > 1 {
        let front = run.drop_last();
        assert forall|k: int| 0 <= k < front.len() - 1 implies (#[trigger] front[k]).segments.len() >= 1
            && frame_step(front[k], front[k + 1]) by {
            assert(front[k] == run[k]);
            assert(front[k + 1] == run[k + 1]);
        }
        lemma_length_never_decreases(front);
        let last = run.len() - 1;
        let prev = run[last - 1];
        assert(prev.segments.len() >= 1 && frame_step(prev, run[last]));
        if ticked(turned(prev, run[last].direction), run[last]) {
            lemma_tick_length(turned(prev, run[last].direction), run[last]);
        }
        assert forall|i: int, j: int| 0 <= i <= j < run.len() implies (#[trigger] run[i]).segments.len()
            <= (#[trigger] run[j]).segments.len() by {
            if j < last {
                assert(front[i] == run[i] && front[j] == run[j]);
            } else if i < last {
                assert(front[i] == run[i] && front[last - 1] == run[last - 1]);
            }
        }
    }
}

} // verus!
