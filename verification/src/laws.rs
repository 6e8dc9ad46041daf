//! What holds of every step of the game, proved from the relation that
//! `GameState::advance` establishes between the game before and after.

use vstd::prelude::*;
use crate::config::REWARD;
use crate::food::Food;
use crate::game::{lemma_moved_keeps, AdvanceResult, GameView};
use crate::snake::{lemma_distinct_with_new_front, moved, obstacles};

verus! {

/// A step keeps a game well formed: the snake still has a head, holds no
/// cell twice and lies in the interior, and the food lies where the snake is
/// not.
pub proof fn law_step_keeps_game_well_formed(
    before: GameView,
    tick: u64,
    after: GameView,
    r: AdvanceResult,
)
    requires
        before.wf(),
        before.advanced(tick, after, r),
    ensures
        after.wf(),
{
    if !before.over && !before.crashes(tick) {
        let grow = before.grows(tick);
        let rest = obstacles(before.body, grow);
        assert forall|i: int, j: int| 0 <= i < rest.len() && 0 <= j < rest.len() && i != j implies rest[i]
            != rest[j] by {
            assert(rest[i] == before.body[i] && rest[j] == before.body[j]);
        }
        lemma_distinct_with_new_front(before.next_head(), rest);
        lemma_moved_keeps(before.body, before.heading, grow, before.cfg);
        assert(after.body == moved(before.body, before.heading, grow));
    }
}

/// On a tick on which growth is not due, the snake is as long after the step
/// as before.
pub proof fn law_length_kept_without_growth(
    before: GameView,
    tick: u64,
    after: GameView,
    r: AdvanceResult,
)
    requires
        before.wf(),
        before.advanced(tick, after, r),
        !before.grows(tick),
    ensures
        after.body.len() == before.body.len(),
{
}

/// On a tick on which growth is due, the snake is one cell longer after a
/// step that does not end the game.
pub proof fn law_length_grows_by_one(
    before: GameView,
    tick: u64,
    after: GameView,
    r: AdvanceResult,
)
    requires
        before.wf(),
        before.advanced(tick, after, r),
        before.grows(tick),
        r != AdvanceResult::GameOver,
    ensures
        after.body.len() == before.body.len() + 1,
{
}

/// After a step that does not end the game, the head lies exactly one cell
/// from where it was, in the heading of the snake, and the cells behind it
/// are the old cells in their old order.
pub proof fn law_head_moves_one_cell(
    before: GameView,
    tick: u64,
    after: GameView,
    r: AdvanceResult,
)
    requires
        before.wf(),
        before.advanced(tick, after, r),
        r != AdvanceResult::GameOver,
    ensures
        after.body[0].x == before.body[0].x + before.heading.dx(),
        after.body[0].y == before.body[0].y + before.heading.dy(),
        vstd::math::abs(after.body[0].x - before.body[0].x) + vstd::math::abs(
            after.body[0].y - before.body[0].y,
        ) == 1,
        forall|i: int| 1 <= i < after.body.len() ==> #[trigger] after.body[i] == before.body[i - 1],
{
    assert(before.cfg.playable(before.body[0]));
}

/// Whatever a step does, the head lies in the interior afterwards: a step
/// that would leave it ends the game and moves nothing.
pub proof fn law_head_stays_in_bounds(
    before: GameView,
    tick: u64,
    after: GameView,
    r: AdvanceResult,
)
    requires
        before.wf(),
        before.advanced(tick, after, r),
    ensures
        after.cfg.playable(after.body[0]),
        before.over || !before.cfg.playable_at(
            before.body[0].col_after(before.heading),
            before.body[0].row_after(before.heading),
        ) ==> r == AdvanceResult::GameOver && after.body == before.body,
{
    law_step_keeps_game_well_formed(before, tick, after, r);
}

/// Whatever a step does, the head lies on no other cell of the snake
/// afterwards: a step into a cell that the snake still holds ends the game
/// and moves nothing.
pub proof fn law_head_meets_no_segment(
    before: GameView,
    tick: u64,
    after: GameView,
    r: AdvanceResult,
)
    requires
        before.wf(),
        before.advanced(tick, after, r),
    ensures
        forall|i: int| 1 <= i < after.body.len() ==> #[trigger] after.body[i] != after.body[0],
        before.over || obstacles(before.body, before.grows(tick)).contains(before.next_head())
            ==> r == AdvanceResult::GameOver && after.body == before.body,
{
    law_step_keeps_game_well_formed(before, tick, after, r);
}

/// After a step, the food lies on no cell of the snake.
pub proof fn law_food_off_the_snake(
    before: GameView,
    tick: u64,
    after: GameView,
    r: AdvanceResult,
)
    requires
        before.wf(),
        before.advanced(tick, after, r),
    ensures
        after.food matches Some(f) ==> !after.body.contains(f.pos),
{
    law_step_keeps_game_well_formed(before, tick, after, r);
}

/// The head reaches the cell of the food exactly on the steps whose result
/// is `Ate`. On such a step the score rises by `REWARD`, as long as the
/// result is a score that can be held, and the food is no longer where it
/// was. On every other step score and food stay as they were.
pub proof fn law_score_follows_food(
    before: GameView,
    tick: u64,
    after: GameView,
    r: AdvanceResult,
)
    requires
        before.wf(),
        before.advanced(tick, after, r),
        before.score + REWARD <= u32::MAX,
    ensures
        (r != AdvanceResult::GameOver && before.food == Some(Food { pos: after.body[0] })) <==> r == AdvanceResult::Ate(after.score),
        r == AdvanceResult::Ate(after.score) ==> after.score == before.score + REWARD
            && after.food != before.food,
        r != AdvanceResult::Ate(after.score) ==> after.score == before.score && after.food
            == before.food,
{
    if !before.over && !before.crashes(tick) {
        assert(after.body[0] == before.next_head());
        if before.eats() {
            assert(after.body.contains(before.next_head()));
        }
    } else {
        assert(before.body.contains(before.body[0]));
    }
}

/// A game that has ended stays as it is, whatever tick is stepped.
pub proof fn law_ended_game_is_final(
    before: GameView,
    tick: u64,
    after: GameView,
    r: AdvanceResult,
)
    requires
        before.over,
        before.advanced(tick, after, r),
    ensures
        after == before,
        r == AdvanceResult::GameOver,
{
}

/// A step that ends the game marks it as ended and changes nothing else.
pub proof fn law_fatal_step_moves_nothing(
    before: GameView,
    tick: u64,
    after: GameView,
    r: AdvanceResult,
)
    requires
        !before.over,
        before.advanced(tick, after, r),
    ensures
        r == AdvanceResult::GameOver <==> before.crashes(tick),
        r == AdvanceResult::GameOver ==> after == (GameView { over: true, ..before }),
        r != AdvanceResult::GameOver ==> !after.over,
{
}

} // verus!
