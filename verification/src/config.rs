//! The tunable constants of a game: the size of the grid, when the snake
//! grows, and the timing of a frame.

use vstd::prelude::*;
use crate::geometry::Location;

verus! {

/// Points gained for each food eaten.
pub const REWARD: u32 = 100;

/// How many random cells are tried for a new food before the grid is
/// searched cell by cell.
pub const SPAWN_RETRIES: u32 = 64;

/// When the snake keeps its tail and so becomes one cell longer.
#[derive(Clone, Copy, Debug, PartialEq, Eq, Structural)]
pub enum Growth {
    /// On every tick that is a multiple of the given interval, whatever the
    /// snake eats. The interval is at least 1.
    EveryNthTick(u64),
    /// On every tick on which the head reaches the food.
    OnFood,
}

/// The constants of one game.
///
/// The grid has a border: column 0, row 0, column `cols` and row `rows` are
/// drawn as a wall. The snake and the food live in the interior, the cells
/// with `1 <= x < cols` and `1 <= y < rows`.
#[derive(Clone, Copy, Debug, PartialEq, Eq, Structural)]
pub struct Config {
    pub cols: u16,
    pub rows: u16,
    pub growth: Growth,
    /// Length of one frame, in milliseconds.
    pub frame_ms: u64,
    /// Longest wait for a key within a frame, in milliseconds.
    pub poll_ms: u64,
}

impl Config {
    /// What a usable configuration satisfies: the interior holds the three
    /// cells of a new snake, a growth interval is not zero, and waiting for a
    /// key takes less than a frame.
    pub open spec fn valid(self) -> bool {
        &&& self.cols >= 4
        &&& self.rows >= 2
        &&& (self.growth matches Growth::EveryNthTick(n) ==> n >= 1)
        &&& self.poll_ms < self.frame_ms
    }

    /// Whether column `x`, row `y` is a cell of the interior.
    pub open spec fn playable_at(self, x: int, y: int) -> bool {
        1 <= x < self.cols && 1 <= y < self.rows
    }

    /// Whether `p` is a cell of the interior.
    pub open spec fn playable(self, p: Location) -> bool {
        self.playable_at(p.x as int, p.y as int)
    }

    /// Whether the snake grows on `tick`, given whether its head reaches the
    /// food on that tick.
    pub open spec fn growth_due(self, tick: u64, eats: bool) -> bool {
        match self.growth {
            Growth::EveryNthTick(n) => n >= 1 && tick % n == 0,
            Growth::OnFood => eats,
        }
    }

    /// Time left to sleep in a frame of which `elapsed_ms` have passed.
    pub open spec fn rest_of_frame(self, elapsed_ms: u64) -> int {
        if elapsed_ms >= self.frame_ms {
            0
        } else {
            self.frame_ms - elapsed_ms
        }
    }

    /// A configuration with the given constants, or `None` exactly when they
    /// are not usable together.
    pub fn new(cols: u16, rows: u16, growth: Growth, frame_ms: u64, poll_ms: u64) -> (r: Option<
        Config,
    >)
        ensures
            r.is_some() == (Config { cols, rows, growth, frame_ms, poll_ms }).valid(),
            r.is_some() ==> r.unwrap() == (Config { cols, rows, growth, frame_ms, poll_ms }),
    {
        let c = Config { cols, rows, growth, frame_ms, poll_ms };
        if c.is_valid() {
            Some(c)
        } else {
            None
        }
    }

    /// Whether the constants are usable together.
    pub fn is_valid(&self) -> (b: bool)
        ensures
            b == self.valid(),
    {
        let interval_ok: bool = match self.growth {
            Growth::EveryNthTick(n) => n >= 1,
            Growth::OnFood => true,
        };
        self.cols >= 4 && self.rows >= 2 && interval_ok && self.poll_ms < self.frame_ms
    }

    /// Whether `p` is a cell of the interior.
    pub fn is_playable(&self, p: Location) -> (b: bool)
        ensures
            b == self.playable(p),
    {
        1 <= p.x && p.x < self.cols && 1 <= p.y && p.y < self.rows
    }

    /// Whether the snake grows on `tick`, given whether its head reaches the
    /// food on that tick.
    pub fn is_growth_due(&self, tick: u64, eats: bool) -> (b: bool)
        ensures
            b == self.growth_due(tick, eats),
    {
        match self.growth {
            Growth::EveryNthTick(n) => n >= 1 && tick % n == 0,
            Growth::OnFood => eats,
        }
    }

    /// Time left to sleep in a frame of which `elapsed_ms` have passed: the
    /// rest of the frame, and nothing once the frame is used up.
    pub fn sleep_for(&self, elapsed_ms: u64) -> (ms: u64)
        ensures
            ms == self.rest_of_frame(elapsed_ms),
    {
        if elapsed_ms >= self.frame_ms {
            0
        } else {
            self.frame_ms - elapsed_ms
        }
    }
}

impl Default for Config {
    /// A grid of 30 columns and 20 rows, growth on every tenth tick, four
    /// frames a second.
    fn default() -> (c: Config)
        ensures
            c == (Config {
                cols: 30,
                rows: 20,
                growth: Growth::EveryNthTick(10),
                frame_ms: 250,
                poll_ms: 10,
            }),
            c.valid(),
    {
        Config { cols: 30, rows: 20, growth: Growth::EveryNthTick(10), frame_ms: 250, poll_ms: 10 }
    }
}

} // verus!
