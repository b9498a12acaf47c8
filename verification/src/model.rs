//! The mathematical model of a grid: a square matrix of cell states with its
//! topology and rules, and what counting neighbors, one generation and the
//! rendered text mean on it.

use vstd::prelude::*;
use vstd::arithmetic::div_mod::{lemma_mod_add_multiples_vanish, lemma_mod_self_0, lemma_small_mod};
use crate::cell::CellState;
use crate::policy::{Rules, Topology};

verus! {

/// A grid as contracts see it.
pub struct GridView {
    /// The rows of the grid, top to bottom; each holds its cells left to
    /// right.
    pub cells: Seq<Seq<CellState>>,
    /// How the edges behave.
    pub topology: Topology,
    /// The transition rules.
    pub rules: Rules,
}

impl GridView {
    /// The grid of side `size` whose cells are all Dead.
    pub open spec fn dead(size: nat, topology: Topology, rules: Rules) -> GridView {
        GridView {
            cells: Seq::new(size, |row: int| Seq::new(size, |col: int| CellState::Dead)),
            topology,
            rules,
        }
    }

    /// Number of rows, which is the number of columns too.
    pub open spec fn size(self) -> nat {
        self.cells.len()
    }

    /// The grid is square, and each cell is in a state that the rules admit.
    pub open spec fn wf(self) -> bool {
        &&& forall|row: int|
            0 <= row < self.size() ==> (#[trigger] self.cells[row]).len() == self.size()
        &&& forall|row: int, col: int|
            0 <= row < self.size() && 0 <= col < self.size() ==> self.rules.admits(
                #[trigger] self.cells[row][col],
            )
    }

    /// Whether (`row`, `col`) is a cell of the grid.
    pub open spec fn contains(self, row: int, col: int) -> bool {
        0 <= row < self.size() && 0 <= col < self.size()
    }

    /// The grid with cell (`row`, `col`) put into `state`, and every other cell
    /// as it is.
    pub open spec fn put(self, row: int, col: int, state: CellState) -> GridView {
        GridView {
            cells: self.cells.update(row, self.cells[row].update(col, state)),
            topology: self.topology,
            rules: self.rules,
        }
    }

    /// Where a row or column index lands that may lie one step off the grid:
    /// nowhere on a bounded grid, at the opposite edge on a toroidal one.
    pub open spec fn resolve(self, index: int) -> Option<int> {
        match self.topology {
            Topology::Bounded => if 0 <= index < self.size() {
                Some(index)
            } else {
                None
            },
            Topology::Toroidal => Some(index % (self.size() as int)),
        }
    }

    /// The cell that position (`row`, `col`) refers to, if any.
    pub open spec fn cell_at(self, row: int, col: int) -> Option<CellState> {
        match (self.resolve(row), self.resolve(col)) {
            (Some(r), Some(c)) => Some(self.cells[r][c]),
            _ => None,
        }
    }

    /// 1 if position (`row`, `col`) refers to a cell in `state`, else 0.
    pub open spec fn hit(self, row: int, col: int, state: CellState) -> nat {
        if self.cell_at(row, col) == Some(state) {
            1
        } else {
            0
        }
    }

    /// 1 if position (`row`, `col`) refers to a cell, else 0.
    pub open spec fn present(self, row: int, col: int) -> nat {
        if self.cell_at(row, col).is_some() {
            1
        } else {
            0
        }
    }

    /// How many of the eight positions around (`row`, `col`) refer to a cell
    /// in `state`.
    pub open spec fn count_neighbors(self, row: int, col: int, state: CellState) -> nat {
        self.hit(row - 1, col - 1, state) + self.hit(row - 1, col, state) + self.hit(
            row - 1,
            col + 1,
            state,
        ) + self.hit(row, col - 1, state) + self.hit(row, col + 1, state) + self.hit(
            row + 1,
            col - 1,
            state,
        ) + self.hit(row + 1, col, state) + self.hit(row + 1, col + 1, state)
    }

    /// How many of the eight positions around (`row`, `col`) refer to a cell
    /// at all.
    pub open spec fn neighborhood(self, row: int, col: int) -> nat {
        self.present(row - 1, col - 1) + self.present(row - 1, col) + self.present(
            row - 1,
            col + 1,
        ) + self.present(row, col - 1) + self.present(row, col + 1) + self.present(
            row + 1,
            col - 1,
        ) + self.present(row + 1, col) + self.present(row + 1, col + 1)
    }

    /// The state of cell (`row`, `col`) in the next generation.
    pub open spec fn next_cell(self, row: int, col: int) -> CellState {
        self.rules.successor(
            self.cells[row][col],
            self.count_neighbors(row, col, CellState::Alive) as int,
            self.count_neighbors(row, col, CellState::Infected) as int,
        )
    }

    /// The next generation: every cell follows the rules at once, from the
    /// states of this generation.
    pub open spec fn step(self) -> GridView {
        GridView {
            cells: Seq::new(
                self.size(),
                |row: int| Seq::new(self.size(), |col: int| self.next_cell(row, col)),
            ),
            topology: self.topology,
            rules: self.rules,
        }
    }

    /// The grid `count` generations later.
    pub open spec fn generations(self, count: nat) -> GridView
        decreases count,
    {
        if count == 0 {
            self
        } else {
            self.generations((count - 1) as nat).step()
        }
    }

    /// The rendered text: one line per row.
    pub open spec fn rendered(self) -> Seq<char> {
        lines_text(self.cells)
    }
}

/// The glyphs of the cells of one row, left to right, with nothing between
/// them.
pub open spec fn row_text(row: Seq<CellState>) -> Seq<char>
    decreases row.len(),
{
    if row.len() == 0 {
        Seq::empty()
    } else {
        row_text(row.drop_last()) + row.last().glyph()
    }
}

/// The text of each row in turn, each ended by a newline.
pub open spec fn lines_text(rows: Seq<Seq<CellState>>) -> Seq<char>
    decreases rows.len(),
{
    if rows.len() == 0 {
        Seq::empty()
    } else {
        lines_text(rows.drop_last()) + row_text(rows.last()) + seq!['\n']
    }
}

/// On a ring of `size` positions, one step from a position on the ring leads
/// to its neighbor, and from either end to the other end.
pub proof fn lemma_ring_step(index: int, size: int)
    requires
        0 <= index < size,
    ensures
        index % size == index,
        (index + 1) % size == if index + 1 == size {
            0
        } else {
            index + 1
        },
        (index - 1) % size == if index == 0 {
            size - 1
        } else {
            index - 1
        },
{
    lemma_small_mod(index as nat, size as nat);
    if index + 1 == size {
        lemma_mod_self_0(size);
    } else {
        lemma_small_mod((index + 1) as nat, size as nat);
    }
    if index == 0 {
        lemma_mod_add_multiples_vanish(-1, size);
        lemma_small_mod((size - 1) as nat, size as nat);
    } else {
        lemma_small_mod((index - 1) as nat, size as nat);
    }
}

} // verus!
