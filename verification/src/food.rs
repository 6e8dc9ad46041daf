//! The food: a single cell that the snake is after, and how a new one is
//! placed where the snake is not.

use vstd::prelude::*;
use crate::config::{Config, SPAWN_RETRIES};
use crate::geometry::Location;
use crate::snake::Snake;

verus! {

/// The cell where the food lies.
#[derive(Clone, Copy, Debug, PartialEq, Eq, Structural)]
pub struct Food {
    pub pos: Location,
}

/// Whether food may be placed on `p`: it is a cell of the interior that the
/// snake does not hold.
pub open spec fn vacant(body: Seq<Location>, cfg: Config, p: Location) -> bool {
    cfg.playable(p) && !body.contains(p)
}

/// Whether no cell is left for food.
pub open spec fn board_full(body: Seq<Location>, cfg: Config) -> bool {
    forall|q: Location| !#[trigger] vacant(body, cfg, q)
}

/// Whether `p` comes no later than `q` when the grid is read row by row,
/// each row from the left.
pub open spec fn reads_before(p: Location, q: Location) -> bool {
    p.y < q.y || (p.y == q.y && p.x <= q.x)
}

/// A random number from `lo` up to, but not including, `hi`.
///
/// This calls `rand::thread_rng` and, on the generator it returns,
/// `rand::Rng::gen_range` with the half-open range from `lo` to `hi`. What is
/// taken on trust: the number lies in that range. Nothing is claimed of which
/// number comes; two calls may differ. `gen_range` panics on an empty range,
/// which `requires` rules out. `thread_rng` panics if the operating system
/// gives it no seed; no argument can prevent that.
#[verifier::external_body]
fn random_between(lo: u16, hi: u16) -> (r: u16)
    requires
        lo < hi,
    ensures
        lo <= r < hi,
{
    rand::Rng::gen_range(&mut rand::thread_rng(), lo..hi)
}

impl Location {
    /// A random cell of the interior of a grid that has one.
    pub fn random(cfg: &Config) -> (p: Location)
        requires
            cfg.cols >= 2,
            cfg.rows >= 2,
        ensures
            cfg.playable(p),
    {
        let x: u16 = random_between(1, cfg.cols);
        let y: u16 = random_between(1, cfg.rows);
        Location { x, y }
    }
}

impl Food {
    /// Food on the cell `candidate`, if food may be placed there: `None`
    /// exactly when the cell is outside the interior or held by the snake.
    pub fn at(snake: &Snake, cfg: &Config, candidate: Location) -> (r: Option<Food>)
        ensures
            r == if vacant(snake.body(), *cfg, candidate) {
                Some(Food { pos: candidate })
            } else {
                None
            },
    {
        if cfg.is_playable(candidate) && !snake.hit_tail(candidate.x, candidate.y) {
            Some(Food { pos: candidate })
        } else {
            None
        }
    }

    /// The first cell, reading the grid row by row, on which food may be
    /// placed; `None` exactly when there is no such cell.
    pub fn first_vacant(snake: &Snake, cfg: &Config) -> (r: Option<Food>)
        ensures
            r.is_none() == board_full(snake.body(), *cfg),
            r matches Some(f) ==> {
                &&& vacant(snake.body(), *cfg, f.pos)
                &&& forall|q: Location| #[trigger]
                    vacant(snake.body(), *cfg, q) ==> reads_before(f.pos, q)
            },
    {
        let mut y: u16 = 1;
        while y < cfg.rows
            invariant
                1 <= y,
                forall|q: Location| q.y < y ==> !#[trigger] vacant(snake.body(), *cfg, q),
            decreases cfg.rows - y,
        {
            let mut x: u16 = 1;
            while x < cfg.cols
                invariant
                    1 <= x,
                    1 <= y < cfg.rows,
                    forall|q: Location| q.y < y ==> !#[trigger] vacant(snake.body(), *cfg, q),
                    forall|q: Location|
                        q.y == y && q.x < x ==> !#[trigger] vacant(snake.body(), *cfg, q),
                decreases cfg.cols - x,
            {
                if !snake.hit_tail(x, y) {
                    let f = Food { pos: Location { x, y } };
                    assert(vacant(snake.body(), *cfg, f.pos));
                    return Some(f);
                }
                x += 1;
            }
            y += 1;
        }
        None
    }

    /// Food on a cell that the snake does not hold, or `None` exactly when
    /// the snake fills the interior.
    ///
    /// Random cells are tried first, up to `SPAWN_RETRIES` of them. If the
    /// snake holds them all, the grid is searched row by row, so that a
    /// nearly full grid cannot keep this from ending.
    pub fn spawn(snake: &Snake, cfg: &Config) -> (r: Option<Food>)
        ensures
            r.is_none() == board_full(snake.body(), *cfg),
            r matches Some(f) ==> vacant(snake.body(), *cfg, f.pos),
    {
        if cfg.cols >= 2 && cfg.rows >= 2 {
            let mut tries: u32 = 0;
            while tries < SPAWN_RETRIES
                invariant
                    cfg.cols >= 2,
                    cfg.rows >= 2,
                decreases SPAWN_RETRIES - tries,
            {
                let candidate: Location = Location::random(cfg);
                match Food::at(snake, cfg, candidate) {
                    Some(f) => {
                        assert(vacant(snake.body(), *cfg, f.pos));
                        return Some(f);
                    },
                    None => {},
                }
                tries += 1;
            }
        }
        Food::first_vacant(snake, cfg)
    }
}

} // verus!
