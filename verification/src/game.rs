//! The state of one game and the step that a tick makes of it.

use vstd::prelude::*;
use crate::config::{Config, REWARD};
use crate::food::{board_full, vacant, Food};
use crate::geometry::{Direction, Location};
use crate::snake::{all_playable, fatal, moved, turned, Snake};

verus! {

/// What a tick did.
#[derive(Clone, Copy, Debug, PartialEq, Eq, Structural)]
pub enum AdvanceResult {
    /// The snake moved.
    Continue,
    /// The snake moved onto the food; the score is now the given one.
    Ate(u32),
    /// The snake would have hit the wall or itself, or had done so before.
    GameOver,
}

/// A game as the contracts see it.
pub struct GameView {
    /// The cells of the snake, head first.
    pub body: Seq<Location>,
    pub heading: Direction,
    /// The food, or `None` once the snake fills the interior.
    pub food: Option<Food>,
    pub score: u32,
    pub tick: u64,
    /// Whether the game has ended.
    pub over: bool,
    pub cfg: Config,
}

/// The score after one more food, which stops at the largest number that a
/// score can hold.
pub open spec fn rewarded(score: u32) -> u32 {
    if score + REWARD > u32::MAX {
        u32::MAX
    } else {
        (score + REWARD) as u32
    }
}

impl GameView {
    /// What holds of every game: the configuration is usable, the snake has
    /// a head, holds no cell twice and lies in the interior, and the food
    /// lies in the interior where the snake is not.
    pub open spec fn wf(self) -> bool {
        &&& self.cfg.valid()
        &&& self.body.len() >= 1
        &&& self.body.no_duplicates()
        &&& all_playable(self.body, self.cfg)
        &&& (self.food matches Some(f) ==> vacant(self.body, self.cfg, f.pos))
    }

    /// The cell that the next step moves the head to.
    pub open spec fn next_head(self) -> Location {
        self.body[0].stepped(self.heading)
    }

    /// Whether the next step brings the head onto the food.
    pub open spec fn eats(self) -> bool {
        self.food == Some(Food { pos: self.next_head() })
    }

    /// Whether the snake grows if it steps on `tick`.
    pub open spec fn grows(self, tick: u64) -> bool {
        self.cfg.growth_due(tick, self.eats())
    }

    /// Whether a step on `tick` ends the game.
    pub open spec fn crashes(self, tick: u64) -> bool {
        fatal(self.body, self.heading, self.grows(tick), self.cfg)
    }

    /// The game after a request to turn to `d`. A game that has ended does
    /// not change.
    pub open spec fn turn(self, d: Direction) -> GameView {
        if self.over {
            self
        } else {
            GameView { heading: turned(self.body.len(), self.heading, d), ..self }
        }
    }

    /// The game after one tick was counted: the number after the largest is
    /// 0, and a game that has ended counts no further.
    pub open spec fn ticked(self) -> GameView {
        if self.over {
            self
        } else if self.tick == u64::MAX {
            GameView { tick: 0, ..self }
        } else {
            GameView { tick: (self.tick + 1) as u64, ..self }
        }
    }

    /// Whether a step on `tick` may lead from this game to the game `next`
    /// with the result `r`.
    ///
    /// Everything is fixed by this game and `tick` but the place of a new
    /// food, which is drawn at random among the cells that the snake does
    /// not hold.
    pub open spec fn advanced(self, tick: u64, next: GameView, r: AdvanceResult) -> bool {
        if self.over {
            next == self && r == AdvanceResult::GameOver
        } else if self.crashes(tick) {
            next == (GameView { over: true, ..self }) && r == AdvanceResult::GameOver
        } else if self.eats() {
            &&& next.body == moved(self.body, self.heading, self.grows(tick))
            &&& next.heading == self.heading
            &&& next.score == rewarded(self.score)
            &&& next.tick == self.tick
            &&& next.over == false
            &&& next.cfg == self.cfg
            &&& next.food.is_none() == board_full(next.body, next.cfg)
            &&& (next.food matches Some(f) ==> vacant(next.body, next.cfg, f.pos))
            &&& r == AdvanceResult::Ate(next.score)
        } else {
            &&& next == (GameView {
                body: moved(self.body, self.heading, self.grows(tick)),
                ..self
            })
            &&& r == AdvanceResult::Continue
        }
    }
}

/// One game: the snake, the food, the score, the tick counter and whether the
/// game has ended.
#[derive(Debug)]
pub struct GameState {
    snake: Snake,
    food: Option<Food>,
    score: u32,
    tick: u64,
    over: bool,
    cfg: Config,
}

impl View for GameState {
    type V = GameView;

    closed spec fn view(&self) -> GameView {
        GameView {
            body: self.snake.body(),
            heading: self.snake.heading(),
            food: self.food,
            score: self.score,
            tick: self.tick,
            over: self.over,
            cfg: self.cfg,
        }
    }
}

impl GameState {
    /// What holds of every game; see `GameView::wf`.
    pub open spec fn wf(&self) -> bool {
        self@.wf()
    }

    /// A new game: the snake of `Snake::new`, no points, tick 0, and a food
    /// placed at random where the snake is not.
    pub fn new(cfg: Config) -> (g: GameState)
        requires
            cfg.valid(),
        ensures
            g@.body == seq![
                Location { x: 3, y: 1 },
                Location { x: 2, y: 1 },
                Location { x: 1, y: 1 },
            ],
            g@.heading == Direction::Right,
            g@.score == 0,
            g@.tick == 0,
            g@.over == false,
            g@.cfg == cfg,
            g@.food.is_none() == board_full(g@.body, cfg),
            g@.food matches Some(f) ==> vacant(g@.body, cfg, f.pos),
            g.wf(),
    {
        let snake: Snake = Snake::new();
        let food: Option<Food> = Food::spawn(&snake, &cfg);
        GameState { snake, food, score: 0, tick: 0, over: false, cfg }
    }

    /// A running game made of the given parts; `None` exactly when they do
    /// not fit together: the configuration is not usable, a cell of the snake
    /// lies outside the interior, or the food lies outside it or on the
    /// snake.
    pub fn from_parts(cfg: Config, snake: Snake, food: Option<Food>, score: u32, tick: u64) -> (r:
        Option<GameState>)
        requires
            snake.wf(),
        ensures
            r.is_some() == (GameView {
                body: snake.body(),
                heading: snake.heading(),
                food,
                score,
                tick,
                over: false,
                cfg,
            }).wf(),
            r.is_some() ==> r.unwrap()@ == (GameView {
                body: snake.body(),
                heading: snake.heading(),
                food,
                score,
                tick,
                over: false,
                cfg,
            }),
    {
        if !cfg.is_valid() {
            return None;
        }
        if !snake.stays_within(&cfg) {
            return None;
        }
        let food_ok: bool = match food {
            Some(f) => Food::at(&snake, &cfg, f.pos).is_some(),
            None => true,
        };
        if !food_ok {
            return None;
        }
        Some(GameState { snake, food, score, tick, over: false, cfg })
    }

    /// The snake.
    pub fn snake(&self) -> (s: &Snake)
        ensures
            s.body() == self@.body,
            s.heading() == self@.heading,
    {
        &self.snake
    }

    /// The food, or `None` once the snake fills the interior.
    pub fn food(&self) -> (f: Option<Food>)
        ensures
            f == self@.food,
    {
        self.food
    }

    /// The points gained so far.
    pub fn score(&self) -> (n: u32)
        ensures
            n == self@.score,
    {
        self.score
    }

    /// The number of the tick that comes next.
    pub fn tick(&self) -> (t: u64)
        ensures
            t == self@.tick,
    {
        self.tick
    }

    /// Whether the game has ended.
    pub fn is_over(&self) -> (b: bool)
        ensures
            b == self@.over,
    {
        self.over
    }

    /// The constants of this game.
    pub fn config(&self) -> (c: Config)
        ensures
            c == self@.cfg,
    {
        self.cfg
    }

    /// Counts one tick. After the largest number comes 0; a game that has
    /// ended counts no further.
    pub fn next_tick(&mut self)
        ensures
            final(self)@ == old(self)@.ticked(),
    {
        if !self.over {
            self.tick = self.tick.wrapping_add(1);
        }
    }

    /// The score after one more food, which stops at the largest number that
    /// a score can hold.
    pub fn reward(score: u32) -> (r: u32)
        ensures
            r == rewarded(score),
    {
        if score > u32::MAX - REWARD {
            u32::MAX
        } else {
            score + REWARD
        }
    }

    /// Whether the next step brings the head onto the food.
    pub fn check_food(&self) -> (b: bool)
        requires
            self.wf(),
        ensures
            b == self@.eats(),
    {
        let head: Location = self.snake.head();
        assert(self.cfg.playable(self.snake.body()[0]));
        match self.food {
            Some(f) => {
                match head.neighbour(self.snake.direction()) {
                    Some(p) => f.pos.x == p.x && f.pos.y == p.y,
                    None => false,
                }
            },
            None => false,
        }
    }

    /// Whether the snake holds the cell `pos`.
    pub fn check_collision(&self, pos: Location) -> (b: bool)
        ensures
            b == self@.body.contains(pos),
    {
        self.snake.hit_tail(pos.x, pos.y)
    }

    /// Asks the snake to turn to `d` on its next step. A snake of more than
    /// one cell does not turn straight back, and a game that has ended does
    /// not change.
    pub fn set_direction(&mut self, d: Direction)
        ensures
            final(self)@ == old(self)@.turn(d),
    {
        if !self.over {
            self.snake.set_direction(d);
        }
    }

    /// Makes the step of `tick`.
    ///
    /// A step that would take the head out of the interior, or into a cell
    /// that the snake still holds, ends the game: nothing changes but that
    /// the game is marked as ended. Otherwise the snake moves, and grows if
    /// growth is due. If the head has reached the food, the score rises by
    /// `REWARD` and a new food is placed where the snake is not. A game that
    /// has ended stays as it is.
    pub fn advance(&mut self, tick: u64) -> (r: AdvanceResult)
        requires
            old(self).wf(),
        ensures
            old(self)@.advanced(tick, final(self)@, r),
            final(self).wf(),
    {
        if self.over {
            return AdvanceResult::GameOver;
        }
        let eats: bool = self.check_food();
        let cfg: Config = self.cfg;
        let grow: bool = cfg.is_growth_due(tick, eats);
        if !self.snake.step(grow, &cfg) {
            self.over = true;
            return AdvanceResult::GameOver;
        }
        proof {
            lemma_moved_keeps(old(self)@.body, old(self)@.heading, grow, cfg);
        }
        if eats {
            self.score = GameState::reward(self.score);
            self.food = Food::spawn(&self.snake, &cfg);
            AdvanceResult::Ate(self.score)
        } else {
            AdvanceResult::Continue
        }
    }
}

/// After a step that is not fatal, the snake lies in the interior if it did
/// before, and holds no cell that is neither its new head nor one of its old
/// cells.
pub proof fn lemma_moved_keeps(body: Seq<Location>, dir: Direction, grow: bool, cfg: Config)
    requires
        body.len() >= 1,
        all_playable(body, cfg),
        !fatal(body, dir, grow, cfg),
    ensures
        all_playable(moved(body, dir, grow), cfg),
        forall|p: Location| #[trigger]
            moved(body, dir, grow).contains(p) ==> p == body[0].stepped(dir) || body.contains(p),
{
    let m = moved(body, dir, grow);
    assert forall|i: int| 0 <= i < m.len() implies cfg.playable(#[trigger] m[i]) by {
        if i >= 1 {
            assert(m[i] == body[i - 1]);
        }
    }
    assert forall|p: Location| #[trigger] m.contains(p) implies p == body[0].stepped(dir)
        || body.contains(p) by {
        let i = choose|i: int| 0 <= i < m.len() && m[i] == p;
        if i >= 1 {
            assert(m[i] == body[i - 1]);
        }
    }
}

} // verus!
