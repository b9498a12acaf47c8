//! What a grid is configured with: how its edges behave, which transition
//! rules it follows, and the two presets.

use vstd::prelude::*;
use crate::cell::CellState;

verus! {

/// Side of the grid of the three-state preset.
pub const THREE_STATE_SIZE: usize = 30;

/// Side of the grid of the classic preset.
pub const CLASSIC_SIZE: usize = 130;

/// Pause between two generations, in milliseconds.
pub const GENERATION_DELAY_MS: u64 = 60;

/// How the cells at the edges of a grid find their neighbors.
#[derive(Clone, Copy, Debug, PartialEq, Eq, Structural)]
pub enum Topology {
    /// Positions beyond an edge do not exist: a cell at an edge has fewer
    /// than eight neighbors.
    Bounded,
    /// Each edge continues at the opposite edge: every cell has eight
    /// neighbors.
    Toroidal,
}

/// The table by which a cell passes from one generation to the next.
#[derive(Clone, Copy, Debug, PartialEq, Eq, Structural)]
pub enum Rules {
    /// Dead, Alive and Infected cells.
    ThreeState,
    /// Conway's rules, on Dead and Alive cells only.
    Classic,
}

impl Rules {
    /// Whether a cell of a grid under these rules may be in `state`.
    pub open spec fn admits(self, state: CellState) -> bool {
        self == Rules::ThreeState || state != CellState::Infected
    }

    /// Whether a random draw under these rules can give `state`: under the
    /// three-state rules `state` stands for a number of `0..100`, under the
    /// classic rules for a side of the coin.
    pub open spec fn can_draw(self, state: CellState) -> bool {
        match self {
            Rules::ThreeState => exists|draw: int|
                0 <= draw < 100 && #[trigger] CellState::of_percent(draw) == state,
            Rules::Classic => exists|heads: bool| #[trigger] CellState::of_coin(heads) == state,
        }
    }

    /// The state that follows `current` for a cell with `alive` Alive and
    /// `infected` Infected neighbors.
    ///
    /// Under the three-state rules infection reaches Alive cells only, and
    /// takes precedence over death. The classic rules ignore `infected`, and
    /// take a cell that is not Alive for a Dead one.
    pub open spec fn successor(self, current: CellState, alive: int, infected: int) -> CellState {
        match self {
            Rules::ThreeState => match current {
                CellState::Alive => if infected > 1 {
                    CellState::Infected
                } else if alive < 2 || alive > 3 {
                    CellState::Dead
                } else {
                    CellState::Alive
                },
                CellState::Dead => if alive == 3 {
                    CellState::Alive
                } else {
                    CellState::Dead
                },
                CellState::Infected => CellState::Infected,
            },
            Rules::Classic => match current {
                CellState::Alive => if alive < 2 || alive > 3 {
                    CellState::Dead
                } else {
                    CellState::Alive
                },
                _ => if alive == 3 {
                    CellState::Alive
                } else {
                    CellState::Dead
                },
            },
        }
    }

    /// Whether a cell of a grid under these rules may be in `state`.
    pub fn allows(&self, state: CellState) -> (allowed: bool)
        ensures
            allowed == self.admits(state),
    {
        match self {
            Rules::ThreeState => true,
            Rules::Classic => match state {
                CellState::Infected => false,
                _ => true,
            },
        }
    }

    /// Applies the transition table to one cell.
    pub fn next_state(&self, current: CellState, alive_neighbors: i32, infected_neighbors: i32) -> (next: CellState)
        ensures
            next == self.successor(current, alive_neighbors as int, infected_neighbors as int),
            self.admits(current) ==> self.admits(next),
    {
        match self {
            Rules::ThreeState => match current {
                CellState::Alive => {
                    if infected_neighbors > 1 {
                        CellState::Infected
                    } else if alive_neighbors < 2 || alive_neighbors > 3 {
                        CellState::Dead
                    } else {
                        CellState::Alive
                    }
                },
                CellState::Dead => {
                    if alive_neighbors == 3 {
                        CellState::Alive
                    } else {
                        CellState::Dead
                    }
                },
                CellState::Infected => CellState::Infected,
            },
            Rules::Classic => match current {
                CellState::Alive => {
                    if alive_neighbors < 2 || alive_neighbors > 3 {
                        CellState::Dead
                    } else {
                        CellState::Alive
                    }
                },
                _ => {
                    if alive_neighbors == 3 {
                        CellState::Alive
                    } else {
                        CellState::Dead
                    }
                },
            },
        }
    }
}

/// One of the two configurations that the simulation runs.
#[derive(Clone, Copy, Debug, PartialEq, Eq, Structural)]
pub enum Variant {
    /// Three states on a bounded grid of side 30.
    ThreeState,
    /// Conway's rules on a toroidal grid of side 130.
    Classic,
}

impl Variant {
    /// Side of the preset's grid.
    pub open spec fn side(self) -> nat {
        match self {
            Variant::ThreeState => THREE_STATE_SIZE as nat,
            Variant::Classic => CLASSIC_SIZE as nat,
        }
    }

    /// Edge behavior of the preset's grid.
    pub open spec fn edges(self) -> Topology {
        match self {
            Variant::ThreeState => Topology::Bounded,
            Variant::Classic => Topology::Toroidal,
        }
    }

    /// Transition rules of the preset.
    pub open spec fn table(self) -> Rules {
        match self {
            Variant::ThreeState => Rules::ThreeState,
            Variant::Classic => Rules::Classic,
        }
    }

    /// Side of the preset's grid.
    pub fn size(&self) -> (size: usize)
        ensures
            size == self.side(),
    {
        match self {
            Variant::ThreeState => THREE_STATE_SIZE,
            Variant::Classic => CLASSIC_SIZE,
        }
    }

    /// Edge behavior of the preset's grid.
    pub fn topology(&self) -> (topology: Topology)
        ensures
            topology == self.edges(),
    {
        match self {
            Variant::ThreeState => Topology::Bounded,
            Variant::Classic => Topology::Toroidal,
        }
    }

    /// Transition rules of the preset.
    pub fn rules(&self) -> (rules: Rules)
        ensures
            rules == self.table(),
    {
        match self {
            Variant::ThreeState => Rules::ThreeState,
            Variant::Classic => Rules::Classic,
        }
    }
}

} // verus!
