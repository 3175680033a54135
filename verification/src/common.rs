//! Grid positions, compass directions, and the shared countdown-timer pattern.
//!
//! Time is measured in whole milliseconds. Every timed behaviour in the game
//! uses the same carry-over countdown: the timer decreases by the elapsed
//! time each tick, and when it drops below zero it fires once and is
//! replenished by adding the cooldown (not reset to it), so overshoot carries
//! forward and the long-run firing rate is preserved under variable tick
//! lengths.
use vstd::prelude::*;

verus! {

/// Longest elapsed time a single tick may report, in milliseconds.
pub const MAX_TICK_MS: i64 = 1_000_000_000;

/// Largest cooldown any timed behaviour may be configured with, in milliseconds.
pub const MAX_COOLDOWN_MS: i64 = 1_000_000;

/// Floor below which a countdown timer is clamped, so that repeated
/// oversized ticks can never underflow the timer's machine representation.
pub const MIN_TIMER_MS: i64 = -2_000_000_000;

/// A pair of signed grid coordinates. Validity against the grid is a
/// predicate on values, not an invariant of the type.
#[derive(Clone, Copy, PartialEq, Eq, Structural, Debug)]
pub struct Position {
    pub x: i32,
    pub y: i32,
}

/// Four-way compass direction.
#[derive(Clone, Copy, PartialEq, Eq, Structural, Debug)]
pub enum Direction {
    Right,
    Left,
    Up,
    Down,
}

impl Direction {
    /// The unit displacement of this direction, as mathematical integers.
    pub open spec fn spec_offset(self) -> (int, int) {
        match self {
            Direction::Right => (1int, 0int),
            Direction::Left => (-1int, 0int),
            Direction::Up => (0int, -1int),
            Direction::Down => (0int, 1int),
        }
    }

    pub open spec fn spec_opposite(&self) -> Direction {
        match self {
            Direction::Right => Direction::Left,
            Direction::Left => Direction::Right,
            Direction::Up => Direction::Down,
            Direction::Down => Direction::Up,
        }
    }

    /// The unit displacement of this direction on the grid.
    pub fn as_tuple(&self) -> (v: (i32, i32))
        ensures
            v.0 == self.spec_offset().0,
            v.1 == self.spec_offset().1,
    {
        match self {
            Direction::Right => (1, 0),
            Direction::Left => (-1, 0),
            Direction::Up => (0, -1),
            Direction::Down => (0, 1),
        }
    }

    /// The reverse of this direction.
    #[verifier::when_used_as_spec(spec_opposite)]
    pub fn opposite(&self) -> (r: Direction)
        ensures
            r == self.spec_opposite(),
    {
        match self {
            Direction::Right => Direction::Left,
            Direction::Left => Direction::Right,
            Direction::Up => Direction::Down,
            Direction::Down => Direction::Up,
        }
    }
}

impl Default for Direction {
    fn default() -> (r: Direction)
        ensures
            r == Direction::Right,
    {
        Direction::Right
    }
}

/// Reversing a direction twice gives it back, and no direction is its own
/// reverse.
pub proof fn lemma_opposite_involution(d: Direction)
    ensures
        d.opposite().opposite() == d,
        d.opposite() != d,
{
}

/// Relies on rand::random_range: a uniform sample from a non-empty integer
/// range lies within that range.
#[verifier::external_body]
pub(crate) fn random_below(n: u32) -> (r: u32)
    requires
        0 < n,
    ensures
        r < n,
{
    rand::random_range(0..n)
}

/// A uniformly random compass direction.
pub fn random_direction() -> Direction {
    let k: u32 = random_below(4);
    if k == 0 {
        Direction::Right
    } else if k == 1 {
        Direction::Left
    } else if k == 2 {
        Direction::Up
    } else {
        Direction::Down
    }
}

/// Clamps a mathematical coordinate into the range of machine coordinates.
pub open spec fn clamp_coord(c: int) -> int {
    if c > i32::MAX {
        i32::MAX as int
    } else if c < i32::MIN {
        i32::MIN as int
    } else {
        c
    }
}

/// The position one cell away from `p` in direction `d`, saturating at the
/// edge of the machine coordinate range.
pub open spec fn spec_step(p: Position, d: Direction) -> Position {
    Position {
        x: clamp_coord(p.x + d.spec_offset().0) as i32,
        y: clamp_coord(p.y + d.spec_offset().1) as i32,
    }
}

impl Position {
    /// The position one cell away in direction `d`.
    pub fn step(self, d: Direction) -> (r: Position)
        ensures
            r == spec_step(self, d),
    {
        let (dx, dy) = d.as_tuple();
        let xi: i64 = self.x as i64 + dx as i64;
        let yi: i64 = self.y as i64 + dy as i64;
        let x: i32 = if xi > i32::MAX as i64 {
            i32::MAX
        } else if xi < i32::MIN as i64 {
            i32::MIN
        } else {
            xi as i32
        };
        let y: i32 = if yi > i32::MAX as i64 {
            i32::MAX
        } else if yi < i32::MIN as i64 {
            i32::MIN
        } else {
            yi as i32
        };
        Position { x, y }
    }
}

/// Whether a countdown timer standing at `timer` fires when `dt` more
/// milliseconds elapse.
pub open spec fn timer_fires(timer: int, dt: int) -> bool {
    timer - dt < 0
}

/// The value of a countdown timer after a tick of `dt` milliseconds against
/// the given cooldown: the elapsed time is subtracted (clamped at the
/// machine floor), and if the result dropped below zero the cooldown is
/// added back, carrying the overshoot forward.
pub open spec fn timer_after_tick(timer: int, dt: int, cooldown: int) -> int {
    let t = if timer - dt < MIN_TIMER_MS {
        MIN_TIMER_MS as int
    } else {
        timer - dt
    };
    if t < 0 {
        t + cooldown
    } else {
        t
    }
}

/// Advances a countdown timer by `dt` milliseconds and reports whether it
/// fired this tick.
pub fn tick_timer(timer: i64, dt: i64, cooldown: i64) -> (r: (i64, bool))
    requires
        MIN_TIMER_MS <= timer <= MAX_COOLDOWN_MS,
        0 <= dt <= MAX_TICK_MS,
        0 <= cooldown <= MAX_COOLDOWN_MS,
    ensures
        r.0 == timer_after_tick(timer as int, dt as int, cooldown as int),
        r.1 == timer_fires(timer as int, dt as int),
        MIN_TIMER_MS <= r.0 <= MAX_COOLDOWN_MS,
{
    let t0: i64 = timer - dt;
    let t: i64 = if t0 < MIN_TIMER_MS {
        MIN_TIMER_MS
    } else {
        t0
    };
    if t < 0 {
        (t + cooldown, true)
    } else {
        (t, false)
    }
}

} // verus!
