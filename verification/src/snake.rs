//! The snake: its cells from head to tail, its heading, and the step that
//! moves it.

use vstd::prelude::*;
use std::collections::VecDeque;
use crate::config::Config;
use crate::food::Food;
use crate::geometry::{Direction, Location};

verus! {

/// The cells of `body` that the head may not enter on a step. A snake that
/// grows keeps all its cells. One that does not grow gives up its tail cell
/// in the same step, so the head may enter it.
pub open spec fn obstacles(body: Seq<Location>, grow: bool) -> Seq<Location> {
    if grow {
        body
    } else {
        body.drop_last()
    }
}

/// Whether one step in heading `dir` ends the game: the head would leave the
/// interior of the grid, or run into a cell that the body still holds.
pub open spec fn fatal(body: Seq<Location>, dir: Direction, grow: bool, cfg: Config) -> bool
    recommends
        body.len() >= 1,
{
    ||| !cfg.playable_at(body[0].col_after(dir), body[0].row_after(dir))
    ||| obstacles(body, grow).contains(body[0].stepped(dir))
}

/// The body after one step in heading `dir` that is not fatal: the new head,
/// then the old cells, without the tail unless the snake grows.
pub open spec fn moved(body: Seq<Location>, dir: Direction, grow: bool) -> Seq<Location>
    recommends
        body.len() >= 1,
{
    seq![body[0].stepped(dir)] + obstacles(body, grow)
}

/// The heading of a snake of `len` cells that heads in `heading` and is
/// asked to turn to `d`. A snake of more than one cell does not turn straight
/// back onto itself: such a request leaves the heading as it was.
pub open spec fn turned(len: nat, heading: Direction, d: Direction) -> Direction {
    if len > 1 && d == heading.reverse() {
        heading
    } else {
        d
    }
}

/// Whether every cell of `body` lies in the interior of the grid.
pub open spec fn all_playable(body: Seq<Location>, cfg: Config) -> bool {
    forall|i: int| 0 <= i < body.len() ==> cfg.playable(#[trigger] body[i])
}

/// A cell put in front of cells that are pairwise distinct and do not hold
/// it gives cells that are pairwise distinct.
pub proof fn lemma_distinct_with_new_front(p: Location, rest: Seq<Location>)
    requires
        rest.no_duplicates(),
        !rest.contains(p),
    ensures
        (seq![p] + rest).no_duplicates(),
{
    let s = seq![p] + rest;
    assert forall|i: int, j: int| 0 <= i < s.len() && 0 <= j < s.len() && i != j implies s[i]
        != s[j] by {
        if i > 0 {
            assert(s[i] == rest[i - 1]);
        }
        if j > 0 {
            assert(s[j] == rest[j - 1]);
        }
    }
}

/// Whether no cell occurs twice in `cells`.
pub fn all_distinct(cells: &Vec<Location>) -> (b: bool)
    ensures
        b == cells@.no_duplicates(),
{
    let n: usize = cells.len();
    let mut i: usize = 0;
    while i < n
        invariant
            i <= n,
            n == cells@.len(),
            forall|a: int, b: int| 0 <= a < i && a < b < n ==> cells@[a] != cells@[b],
        decreases n - i,
    {
        let mut j: usize = i + 1;
        while j < n
            invariant
                i < j <= n,
                n == cells@.len(),
                forall|b: int| i < b < j ==> cells@[i as int] != cells@[b],
            decreases n - j,
        {
            if cells[i].x == cells[j].x && cells[i].y == cells[j].y {
                assert(cells@[i as int] == cells@[j as int]);
                return false;
            }
            j += 1;
        }
        i += 1;
    }
    assert forall|a: int, b: int| 0 <= a < n && 0 <= b < n && a != b implies cells@[a]
        != cells@[b] by {
        if a < b {
        } else {
            assert(cells@[b] != cells@[a]);
        }
    }
    true
}

/// The snake. Its cells are kept head first, and no cell is held twice.
#[derive(Debug)]
pub struct Snake {
    segments: VecDeque<Location>,
    dir: Direction,
}

impl Snake {
    /// The cells of the snake, head first, tail last.
    pub closed spec fn body(&self) -> Seq<Location> {
        self.segments@
    }

    /// The heading in which the next step moves the head.
    pub closed spec fn heading(&self) -> Direction {
        self.dir
    }

    /// What holds of every snake: it has a head, and no two of its cells are
    /// the same.
    pub open spec fn wf(&self) -> bool {
        self.body().len() >= 1 && self.body().no_duplicates()
    }

    /// A snake of three cells in row 1, its head in column 3, heading right.
    pub fn new() -> (s: Snake)
        ensures
            s.body() == seq![
                Location { x: 3, y: 1 },
                Location { x: 2, y: 1 },
                Location { x: 1, y: 1 },
            ],
            s.heading() == Direction::Right,
            s.wf(),
    {
        let mut segments: VecDeque<Location> = VecDeque::new();
        segments.push_back(Location { x: 3, y: 1 });
        segments.push_back(Location { x: 2, y: 1 });
        segments.push_back(Location { x: 1, y: 1 });
        assert(segments@ =~= seq![
            Location { x: 3, y: 1 },
            Location { x: 2, y: 1 },
            Location { x: 1, y: 1 },
        ]);
        Snake { segments, dir: Direction::Right }
    }

    /// The snake that holds `cells`, head first, and heads in `dir`; `None`
    /// exactly when `cells` is empty or holds a cell twice.
    pub fn from_segments(cells: &Vec<Location>, dir: Direction) -> (r: Option<Snake>)
        ensures
            r.is_some() == (cells@.len() >= 1 && cells@.no_duplicates()),
            r.is_some() ==> r.unwrap().body() == cells@ && r.unwrap().heading() == dir,
    {
        if cells.len() == 0 || !all_distinct(cells) {
            return None;
        }
        let mut segments: VecDeque<Location> = VecDeque::new();
        let mut i: usize = 0;
        while i < cells.len()
            invariant
                i <= cells@.len(),
                segments@ == cells@.subrange(0, i as int),
            decreases cells@.len() - i,
        {
            segments.push_back(cells[i]);
            assert(segments@ =~= cells@.subrange(0, i + 1));
            i += 1;
        }
        assert(segments@ =~= cells@);
        Some(Snake { segments, dir })
    }

    /// The cells of the snake, head first.
    pub fn segments(&self) -> (cells: Vec<Location>)
        ensures
            cells@ == self.body(),
    {
        let mut cells: Vec<Location> = Vec::new();
        let mut i: usize = 0;
        while i < self.segments.len()
            invariant
                i <= self.segments@.len(),
                cells@ == self.segments@.subrange(0, i as int),
            decreases self.segments@.len() - i,
        {
            cells.push(self.segments[i]);
            assert(cells@ =~= self.segments@.subrange(0, i + 1));
            i += 1;
        }
        assert(cells@ =~= self.segments@);
        cells
    }

    /// How many cells the snake holds.
    pub fn len(&self) -> (n: usize)
        ensures
            n == self.body().len(),
    {
        self.segments.len()
    }

    /// The cell of the head.
    pub fn head(&self) -> (p: Location)
        requires
            self.wf(),
        ensures
            p == self.body()[0],
    {
        self.segments[0]
    }

    /// The heading in which the next step moves the head.
    pub fn direction(&self) -> (d: Direction)
        ensures
            d == self.heading(),
    {
        self.dir
    }

    /// Whether `p` is one of the first `n` cells of the snake.
    pub fn hits_first(&self, p: Location, n: usize) -> (b: bool)
        requires
            n <= self.body().len(),
        ensures
            b == self.body().subrange(0, n as int).contains(p),
    {
        let mut i: usize = 0;
        while i < n
            invariant
                i <= n <= self.segments@.len(),
                forall|k: int| 0 <= k < i ==> self.segments@[k] != p,
            decreases n - i,
        {
            let cur: Location = self.segments[i];
            if cur.x == p.x && cur.y == p.y {
                assert(self.body().subrange(0, n as int)[i as int] == p);
                return true;
            }
            i += 1;
        }
        assert forall|k: int| 0 <= k < n implies self.body().subrange(0, n as int)[k] != p by {}
        false
    }

    /// Whether every cell of the snake lies in the interior of the grid.
    pub fn stays_within(&self, cfg: &Config) -> (b: bool)
        ensures
            b == all_playable(self.body(), *cfg),
    {
        let mut i: usize = 0;
        while i < self.segments.len()
            invariant
                i <= self.segments@.len(),
                forall|k: int| 0 <= k < i ==> cfg.playable(#[trigger] self.segments@[k]),
            decreases self.segments@.len() - i,
        {
            if !cfg.is_playable(self.segments[i]) {
                return false;
            }
            i += 1;
        }
        true
    }

    /// Whether the snake holds the cell in column `x`, row `y`.
    pub fn hit_tail(&self, x: u16, y: u16) -> (b: bool)
        ensures
            b == self.body().contains(Location { x, y }),
    {
        let n: usize = self.segments.len();
        assert(self.body().subrange(0, n as int) =~= self.body());
        self.hits_first(Location { x, y }, n)
    }

    /// Whether the head lies on the food.
    pub fn hit(&self, food: &Food) -> (b: bool)
        requires
            self.wf(),
        ensures
            b == (self.body()[0] == food.pos),
    {
        let head: Location = self.segments[0];
        head.x == food.pos.x && head.y == food.pos.y
    }

    /// Asks the snake to turn to `d`. The cells stay; the heading becomes `d`
    /// unless that would turn a snake of more than one cell straight back.
    pub fn set_direction(&mut self, d: Direction)
        ensures
            final(self).body() == old(self).body(),
            final(self).heading() == turned(old(self).body().len(), old(self).heading(), d),
    {
        if self.segments.len() > 1 && d == self.dir.opposite() {
        } else {
            self.dir = d;
        }
    }

    /// Moves the snake one step in its heading, unless that step is fatal.
    ///
    /// Returns whether the snake moved. A fatal step leaves the snake as it
    /// was. Otherwise the new head is put in front, and the tail is removed
    /// unless `grow` is set.
    pub fn step(&mut self, grow: bool, cfg: &Config) -> (ok: bool)
        requires
            old(self).wf(),
        ensures
            ok == !fatal(old(self).body(), old(self).heading(), grow, *cfg),
            ok ==> final(self).body() == moved(old(self).body(), old(self).heading(), grow),
            !ok ==> final(self).body() == old(self).body(),
            final(self).heading() == old(self).heading(),
            final(self).wf(),
    {
        let head: Location = self.segments[0];
        let next: Location = match head.neighbour(self.dir) {
            Some(p) => p,
            None => {
                return false;
            },
        };
        if !cfg.is_playable(next) {
            return false;
        }
        let n: usize = self.segments.len();
        let blocked: usize = if grow {
            n
        } else {
            n - 1
        };
        assert(self.body().subrange(0, blocked as int) =~= obstacles(self.body(), grow));
        if self.hits_first(next, blocked) {
            return false;
        }
        proof {
            lemma_distinct_with_new_front(next, obstacles(self.body(), grow));
        }
        self.segments.push_front(next);
        if !grow {
            self.segments.pop_back();
        }
        assert(self.body() =~= moved(old(self).body(), old(self).heading(), grow));
        true
    }

    /// Moves the snake on `tick` by the tick cadence of `cfg`: it grows on
    /// the ticks that are a multiple of the growth interval and keeps its
    /// length on all others. It knows nothing of food, so with growth on
    /// food it never grows here.
    ///
    /// Returns whether the snake moved; a fatal step leaves it as it was.
    pub fn update_snake(&mut self, tick: u64, cfg: &Config) -> (ok: bool)
        requires
            old(self).wf(),
        ensures
            ok == !fatal(
                old(self).body(),
                old(self).heading(),
                cfg.growth_due(tick, false),
                *cfg,
            ),
            ok ==> final(self).body() == moved(
                old(self).body(),
                old(self).heading(),
                cfg.growth_due(tick, false),
            ),
            !ok ==> final(self).body() == old(self).body(),
            final(self).heading() == old(self).heading(),
            final(self).wf(),
    {
        let grow: bool = cfg.is_growth_due(tick, false);
        self.step(grow, cfg)
    }
}

} // verus!
