//! One frame of the game loop: what a key means, and what the caller has to
//! do after the game has taken it in.
//!
//! The loop itself, with its waiting and drawing, is the caller's. Each time
//! round it hands the key that arrived to `run_frame` and carries out the
//! action that comes back.

use vstd::prelude::*;
use crate::game::{AdvanceResult, GameState, GameView};
use crate::geometry::Direction;

verus! {

/// A key, as far as the game tells keys apart.
#[derive(Clone, Copy, Debug, PartialEq, Eq, Structural)]
pub enum Key {
    Up,
    Down,
    Left,
    Right,
    /// A key that stands for a character.
    Char(char),
    /// Any other key.
    Other,
}

/// What the player asked for during one frame.
#[derive(Clone, Copy, Debug, PartialEq, Eq, Structural)]
pub enum Input {
    Up,
    Down,
    Left,
    Right,
    /// Leave the game.
    Quit,
    /// Nothing: no key arrived, or one without a meaning.
    Idle,
}

/// What the caller does after a frame.
#[derive(Clone, Copy, Debug, PartialEq, Eq, Structural)]
pub enum Action {
    /// Draw the game, sleep for the rest of the frame, and go on.
    Render,
    /// Tell the player that the game is over, then clean up and leave.
    AnnounceGameOver,
    /// Clean up and leave.
    Teardown,
}

impl Input {
    /// What a key event means. Only a key that is pressed means anything:
    /// an arrow key its heading, the character `q` to leave.
    pub open spec fn meaning(pressed: bool, key: Key) -> Input {
        if !pressed {
            Input::Idle
        } else {
            match key {
                Key::Up => Input::Up,
                Key::Down => Input::Down,
                Key::Left => Input::Left,
                Key::Right => Input::Right,
                Key::Char(c) => if c == 'q' {
                    Input::Quit
                } else {
                    Input::Idle
                },
                Key::Other => Input::Idle,
            }
        }
    }

    /// The heading that this input asks for, if it asks for one.
    pub open spec fn heading(self) -> Option<Direction> {
        match self {
            Input::Up => Some(Direction::Up),
            Input::Down => Some(Direction::Down),
            Input::Left => Some(Direction::Left),
            Input::Right => Some(Direction::Right),
            _ => None,
        }
    }

    /// What a key event means.
    pub fn from_key(pressed: bool, key: Key) -> (i: Input)
        ensures
            i == Input::meaning(pressed, key),
    {
        if !pressed {
            return Input::Idle;
        }
        match key {
            Key::Up => Input::Up,
            Key::Down => Input::Down,
            Key::Left => Input::Left,
            Key::Right => Input::Right,
            Key::Char(c) => {
                if c == 'q' {
                    Input::Quit
                } else {
                    Input::Idle
                }
            },
            Key::Other => Input::Idle,
        }
    }

    /// The heading that this input asks for, if it asks for one.
    pub fn direction(self) -> (d: Option<Direction>)
        ensures
            d == self.heading(),
    {
        match self {
            Input::Up => Some(Direction::Up),
            Input::Down => Some(Direction::Down),
            Input::Left => Some(Direction::Left),
            Input::Right => Some(Direction::Right),
            _ => None,
        }
    }
}

/// The game that steps after `input` was taken in: turned as the input asks.
pub open spec fn steered(before: GameView, input: Input) -> GameView {
    match input.heading() {
        Some(d) => before.turn(d),
        None => before,
    }
}

/// Whether one frame with `input` may lead from the game `before` to the
/// game `after` with the action `a`.
///
/// A game that has ended, and a request to leave, change nothing and call
/// for cleaning up. Otherwise the snake turns as the input asks and steps on
/// the tick that the game has counted. A fatal step calls for the
/// announcement and counts no tick; any other step counts one and calls for
/// drawing.
pub open spec fn framed(before: GameView, input: Input, after: GameView, a: Action) -> bool {
    if before.over || input == Input::Quit {
        after == before && a == Action::Teardown
    } else {
        let s = steered(before, input);
        if s.crashes(before.tick) {
            &&& s.advanced(before.tick, after, AdvanceResult::GameOver)
            &&& a == Action::AnnounceGameOver
        } else {
            &&& s.advanced(
                before.tick,
                GameView { tick: before.tick, ..after },
                if s.eats() {
                    AdvanceResult::Ate(after.score)
                } else {
                    AdvanceResult::Continue
                },
            )
            &&& after.tick == s.ticked().tick
            &&& a == Action::Render
        }
    }
}

/// Runs one frame of the game: takes in `input`, makes the step of the
/// current tick, counts the tick, and says what the caller is to do.
pub fn run_frame(game: &mut GameState, input: Input) -> (a: Action)
    requires
        old(game).wf(),
    ensures
        framed(old(game)@, input, final(game)@, a),
        final(game).wf(),
{
    if game.is_over() {
        return Action::Teardown;
    }
    match input {
        Input::Quit => {
            return Action::Teardown;
        },
        _ => {},
    }
    match input.direction() {
        Some(d) => {
            game.set_direction(d);
        },
        None => {},
    }
    let tick: u64 = game.tick();
    let ghost s = game@;
    match game.advance(tick) {
        AdvanceResult::GameOver => Action::AnnounceGameOver,
        r => {
            let ghost mid = game@;
            game.next_tick();
            assert(mid == (GameView { tick: tick, ..game@ }));
            Action::Render
        },
    }
}

} // verus!
