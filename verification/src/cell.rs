//! The states a cell can be in, how each is drawn, and how a random draw
//! picks one.

use vstd::prelude::*;

verus! {

/// The state of one cell.
#[derive(Clone, Copy, Debug, PartialEq, Eq, Structural)]
pub enum CellState {
    /// Inert.
    Dead,
    /// Active.
    Alive,
    /// Contaminated. A cell that enters this state never leaves it.
    Infected,
}

impl CellState {
    /// The three characters that stand for this state on the display.
    pub open spec fn glyph(self) -> Seq<char> {
        match self {
            CellState::Dead => seq!['░', '░', '░'],
            CellState::Alive => seq!['█', '█', '█'],
            CellState::Infected => seq!['X', 'X', 'X'],
        }
    }

    /// The state that a draw from `0..100` stands for: 52 draws in a hundred
    /// give `Alive`, 47 give `Dead` and one gives `Infected`.
    pub open spec fn of_percent(draw: int) -> CellState {
        if draw <= 51 {
            CellState::Alive
        } else if draw <= 98 {
            CellState::Dead
        } else {
            CellState::Infected
        }
    }

    /// The state that a fair coin stands for.
    pub open spec fn of_coin(heads: bool) -> CellState {
        if heads {
            CellState::Alive
        } else {
            CellState::Dead
        }
    }

    /// The text drawn for a cell in this state.
    pub fn character(&self) -> (glyph: &'static str)
        ensures
            glyph@ == self.glyph(),
    {
        match self {
            CellState::Dead => {
                proof {
                    reveal_strlit("░░░");
                }
                assert("░░░"@ =~= CellState::Dead.glyph());
                "░░░"
            },
            CellState::Alive => {
                proof {
                    reveal_strlit("███");
                }
                assert("███"@ =~= CellState::Alive.glyph());
                "███"
            },
            CellState::Infected => {
                proof {
                    reveal_strlit("XXX");
                }
                assert("XXX"@ =~= CellState::Infected.glyph());
                "XXX"
            },
        }
    }

    /// Maps a number drawn uniformly from `0..100` to a state of the
    /// three-state variant.
    pub fn from_percent(draw: u32) -> (state: CellState)
        ensures
            state == CellState::of_percent(draw as int),
    {
        if draw <= 51 {
            CellState::Alive
        } else if draw <= 98 {
            CellState::Dead
        } else {
            CellState::Infected
        }
    }

    /// Maps the toss of a fair coin to a state of the two-state variant.
    pub fn from_coin(heads: bool) -> (state: CellState)
        ensures
            state == CellState::of_coin(heads),
    {
        if heads {
            CellState::Alive
        } else {
            CellState::Dead
        }
    }
}

} // verus!
