//! The commands a player sends to a board.
use crate::game::{after_rotate, after_shift, dropped, overlaps, StandardGame, HEIGHT};
use crate::tetromino::{shifted, Direction};
use vstd::prelude::*;

verus! {

/// A command from the player or the clock.
#[derive(Clone, Copy, Debug, PartialEq, Eq, Structural)]
pub enum Action {
    Turn,
    Shift(Direction),
    HardDrop,
    Tick,
}

/// Applies a command to the board, unless the game is paused.
pub fn send(game: &mut StandardGame, paused: bool, action: Action)
    requires
        old(game).wf(),
        old(game).score + HEIGHT <= u32::MAX,
    ensures
        final(game).wf(),
        paused ==> *final(game) == *old(game),
        !paused ==> match action {
            Action::Turn => final(game).same_but_piece(old(game)) && final(game).cells()
                == after_rotate(old(game).grid, old(game).cells()),
            Action::Shift(dir) => final(game).same_but_piece(old(game)) && final(game).cells()
                == after_shift(old(game).grid, old(game).cells(), dir),
            Action::HardDrop => final(game).same_but_piece(old(game)) && final(game).cells()
                == dropped(old(game).grid, old(game).cells()),
            Action::Tick => {
                &&& final(game).rows() == old(game).settled_rows()
                &&& final(game).score == old(game).score + old(game).settled_lines()
                &&& !old(game).landed() ==> final(game).same_but_piece(old(game))
                    && final(game).cells() == shifted(old(game).cells(), Direction::Down)
                &&& old(game).landed() ==> StandardGame::is_spawn(final(game).tetromino)
                    && final(game).over == overlaps(final(game).rows(), final(game).cells())
            },
        },
{
    if paused {
        return;
    }
    match action {
        Action::Turn => game.turn(),
        Action::Tick => game.tick(),
        Action::HardDrop => game.hard_drop(),
        Action::Shift(dir) => game.shift(dir),
    }
}

} // verus!
