//! The control state of the per-tick input pipeline, and the abstract
//! commands an input device feeds it. The control state decides what the
//! player's commands mean at any moment; transitions depend only on the
//! current state and the command, never on which actor is active.

use vstd::prelude::*;

verus! {

/// Control state that determines the flow of player input: what a command
/// does and when. Only states with implemented transitions are listed, so
/// the machine stays exhaustively matchable; further actions (attacks,
/// aiming, item use, ...) are added as their behavior is built.
#[derive(Copy, Clone, PartialEq, Eq, Structural, Debug)]
pub enum CombatActionType {
    /// Root state from which the active character picks what to do.
    Idle,
    /// The character is moving tile by tile until cancelled.
    Moving,
    /// The player was asked to confirm ending the character's turn.
    ConfirmingEndTurn,
}

/// One of the eight directions a character can step in.
#[derive(Copy, Clone, PartialEq, Eq, Structural, Debug)]
pub enum Direction {
    North,
    South,
    East,
    West,
    NorthEast,
    NorthWest,
    SouthEast,
    SouthWest,
}

impl Direction {
    /// The unit step this direction stands for, as (dx, dy); the y axis
    /// grows southward.
    pub open spec fn spec_delta(&self) -> (int, int) {
        match *self {
            Direction::North => (0int, -1int),
            Direction::South => (0int, 1int),
            Direction::East => (1int, 0int),
            Direction::West => (-1int, 0int),
            Direction::NorthEast => (1int, -1int),
            Direction::NorthWest => (-1int, -1int),
            Direction::SouthEast => (1int, 1int),
            Direction::SouthWest => (-1int, 1int),
        }
    }

    /// The unit step this direction stands for.
    pub fn delta(&self) -> (r: (i32, i32))
        ensures
            (r.0 as int, r.1 as int) == self.spec_delta(),
    {
        match *self {
            Direction::North => (0, -1),
            Direction::South => (0, 1),
            Direction::East => (1, 0),
            Direction::West => (-1, 0),
            Direction::NorthEast => (1, -1),
            Direction::NorthWest => (-1, -1),
            Direction::SouthEast => (1, 1),
            Direction::SouthWest => (-1, 1),
        }
    }
}

/// An abstract command, the device layer's reading of raw input.
#[derive(Copy, Clone, PartialEq, Eq, Structural, Debug)]
pub enum Command {
    /// Spend a minor action to enter the movement phase.
    StartMove,
    /// Step one tile in a direction while moving.
    Move(Direction),
    /// Leave the movement phase, restoring movement points.
    Cancel,
    /// Ask to end the current character's turn.
    ConfirmEndTurn,
    /// Answer yes to the end-of-turn confirmation.
    EndTurnYes,
    /// Answer no to the end-of-turn confirmation.
    EndTurnNo,
    /// Quit the program.
    Quit,
}

} // verus!
