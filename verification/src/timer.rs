//! A periodic timer: it gathers elapsed time and fires once per interval.

use vstd::prelude::*;

verus! {

/// Nanoseconds between two moves of the snake.
pub const SNAKE_MOVE_INTERVAL: u64 = 1_500_000_000;

/// Nanoseconds between two spawns of food.
pub const FOOD_SPAWN_INTERVAL: u64 = 1_000_000_000;

/// A repeating timer. All times are in nanoseconds.
///
/// `finished` tells whether the most recent [`Timer::tick`] reached the
/// interval. It stays as it is until the next tick, so that every step of a
/// frame reads the same answer.
#[derive(Clone, Copy, Debug, PartialEq, Eq, Structural)]
pub struct Timer {
    pub interval: u64,
    pub elapsed: u64,
    pub finished: bool,
}

impl Timer {
    /// Time gathered once `delta` has been added to what the timer holds.
    pub open spec fn gathered(self, delta: u64) -> int {
        self.elapsed + delta
    }

    /// The timer after `delta` more nanoseconds. It fires when the gathered
    /// time reaches the interval, and then keeps only what goes beyond a whole
    /// number of intervals. With an interval of zero it fires on every tick.
    pub open spec fn tick_spec(self, delta: u64) -> Timer {
        if self.gathered(delta) < self.interval {
            Timer {
                interval: self.interval,
                elapsed: self.gathered(delta) as u64,
                finished: false,
            }
        } else if self.interval == 0 {
            Timer { interval: 0, elapsed: 0, finished: true }
        } else {
            Timer {
                interval: self.interval,
                elapsed: (self.gathered(delta) % (self.interval as int)) as u64,
                finished: true,
            }
        }
    }

    /// A timer that has gathered nothing and has not fired.
    pub open spec fn at_rest(interval: u64) -> Timer {
        Timer { interval, elapsed: 0, finished: false }
    }

    /// A timer that has gathered nothing and has not fired.
    pub fn new(interval: u64) -> (r: Timer)
        ensures
            r == Timer::at_rest(interval),
    {
        Timer { interval, elapsed: 0, finished: false }
    }

    /// Advances the timer by `delta` nanoseconds.
    pub fn tick(&mut self, delta: u64)
        ensures
            *final(self) == old(self).tick_spec(delta),
            final(self).finished == (old(self).elapsed + delta >= old(self).interval),
            final(self).interval > 0 ==> final(self).elapsed < final(self).interval,
    {
        let total: u128 = self.elapsed as u128 + delta as u128;
        let interval: u128 = self.interval as u128;
        if total < interval {
            self.elapsed = total as u64;
            self.finished = false;
        } else if self.interval == 0 {
            self.elapsed = 0;
            self.finished = true;
        } else {
            let rest: u128 = total % interval;
            self.elapsed = rest as u64;
            self.finished = true;
        }
    }

    /// Whether the most recent tick reached the interval.
    pub fn finished(&self) -> (r: bool)
        ensures
            r == self.finished,
    {
        self.finished
    }
}

/// The timer that paces the snake's moves.
#[derive(Clone, Copy, Debug, PartialEq, Eq, Structural)]
pub struct SnakeMoveTimer(pub Timer);

/// The timer that paces the spawning of food.
#[derive(Clone, Copy, Debug, PartialEq, Eq, Structural)]
pub struct FoodSpawnTimer(pub Timer);

impl Default for SnakeMoveTimer {
    fn default() -> (r: SnakeMoveTimer)
        ensures
            r.0 == Timer::at_rest(SNAKE_MOVE_INTERVAL),
    {
        SnakeMoveTimer(Timer::new(SNAKE_MOVE_INTERVAL))
    }
}

impl Default for FoodSpawnTimer {
    fn default() -> (r: FoodSpawnTimer)
        ensures
            r.0 == Timer::at_rest(FOOD_SPAWN_INTERVAL),
    {
        FoodSpawnTimer(Timer::new(FOOD_SPAWN_INTERVAL))
    }
}

} // verus!
