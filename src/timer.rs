//! The movement timer: one simulation step per fixed interval, however fast
//! frames come. Times are whole microseconds since the game started.
use vstd::prelude::*;

verus! {

/// Time between two steps of the snake, in microseconds (0.075 s).
pub const MOVE_INTERVAL_MICROS: u64 = 75_000;

pub struct Timer {
    /// The time sampled at the previous frame.
    pub prev_time: u64,
    /// The fixed time between two steps.
    pub move_interval: u64,
    /// Time accumulated since the last step.
    pub move_timer: u64,
}

/// Time elapsed from `prev` to `now`; a clock that went back counts as none.
pub open spec fn elapsed(prev: u64, now: u64) -> int {
    if now >= prev {
        now - prev
    } else {
        0
    }
}

/// The accumulated time after adding `delta`, held at the largest `u64`.
pub open spec fn accumulated(acc: u64, delta: int) -> int {
    if acc + delta > u64::MAX {
        u64::MAX as int
    } else {
        acc + delta
    }
}

impl Timer {
    /// A timer started at time 0 with nothing accumulated.
    pub fn new(move_interval: u64) -> (r: Timer)
        ensures
            r.prev_time == 0,
            r.move_interval == move_interval,
            r.move_timer == 0,
    {
        Timer { prev_time: 0, move_interval, move_timer: 0 }
    }

    /// Takes the frame's time `now` and says whether a step fires. The time
    /// accumulated before this frame decides: once it has reached the
    /// interval the step fires and the accumulated time goes back to 0,
    /// dropping any overshoot; otherwise this frame's time is added to it.
    pub fn advance(&mut self, now: u64) -> (fired: bool)
        ensures
            fired == (old(self).move_timer >= old(self).move_interval),
            final(self).prev_time == now,
            final(self).move_interval == old(self).move_interval,
            fired ==> final(self).move_timer == 0,
            !fired ==> final(self).move_timer == accumulated(
                old(self).move_timer,
                elapsed(old(self).prev_time, now),
            ),
    {
        let delta: u64 = if now >= self.prev_time {
            now - self.prev_time
        } else {
            0
        };
        self.prev_time = now;
        if self.move_timer >= self.move_interval {
            self.move_timer = 0;
            true
        } else {
            self.move_timer = self.move_timer.saturating_add(delta);
            false
        }
    }
}

} // verus!
