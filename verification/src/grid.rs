//! The grid: a square matrix of cells that is built, read, changed cell by
//! cell, and advanced one generation at a time.

use vstd::prelude::*;
use vstd::string::StringExecFns;
use rand::rngs::ThreadRng;
use rand::thread_rng;
use crate::cell::CellState;
use crate::chance::{draw_between, draw_ratio};
use crate::model::{lemma_ring_step, lines_text, row_text, GridView};
use crate::policy::{Rules, Topology};

verus! {

/// A square grid of cells with its topology and its rules.
///
/// Every value of this type is square and holds only cells that its rules
/// admit: `self@.wf()`.
#[derive(Debug, PartialEq, Eq)]
pub struct Grid {
    cells: Vec<Vec<CellState>>,
    topology: Topology,
    rules: Rules,
}

impl View for Grid {
    type V = GridView;

    closed spec fn view(&self) -> GridView {
        GridView {
            cells: Seq::new(self.cells@.len(), |row: int| self.cells@[row]@),
            topology: self.topology,
            rules: self.rules,
        }
    }
}

/// A row of `size` Dead cells.
fn dead_row(size: usize) -> (row: Vec<CellState>)
    ensures
        row@ == Seq::new(size as nat, |col: int| CellState::Dead),
{
    let mut row: Vec<CellState> = Vec::new();
    let mut col: usize = 0;
    while col < size
        invariant
            col <= size,
            row@ == Seq::new(col as nat, |c: int| CellState::Dead),
        decreases size - col,
    {
        row.push(CellState::Dead);
        col += 1;
    }
    row
}

impl Grid {
    #[verifier::type_invariant]
    spec fn well_formed(&self) -> bool {
        self@.wf()
    }

    /// A bounded grid of `size` rows and columns under the three-state
    /// rules, with every cell Dead. A `size` of 0 gives the empty grid.
    pub fn new(size: usize) -> (grid: Grid)
        ensures
            grid@ == GridView::dead(size as nat, Topology::Bounded, Rules::ThreeState),
            grid@.wf(),
    {
        Grid::with_policy(size, Topology::Bounded, Rules::ThreeState)
    }

    /// A grid of `size` rows and columns with the given topology and rules,
    /// with every cell Dead. A `size` of 0 gives the empty grid.
    pub fn with_policy(size: usize, topology: Topology, rules: Rules) -> (grid: Grid)
        ensures
            grid@ == GridView::dead(size as nat, topology, rules),
            grid@.wf(),
    {
        let mut cells: Vec<Vec<CellState>> = Vec::new();
        let mut row: usize = 0;
        while row < size
            invariant
                row <= size,
                cells@.len() == row,
                forall|r: int|
                    0 <= r < row ==> (#[trigger] cells@[r])@ == Seq::new(
                        size as nat,
                        |col: int| CellState::Dead,
                    ),
            decreases size - row,
        {
            cells.push(dead_row(size));
            row += 1;
        }
        let grid = Grid { cells, topology, rules };
        assert(grid@.cells =~~= GridView::dead(size as nat, topology, rules).cells);
        grid
    }

    /// Number of rows, which is the number of columns too. Like every grid,
    /// this one is well-formed.
    pub fn size(&self) -> (size: usize)
        ensures
            size == self@.size(),
            self@.wf(),
    {
        proof {
            use_type_invariant(self);
        }
        self.cells.len()
    }

    /// The topology that the grid was made with.
    pub fn topology(&self) -> (topology: Topology)
        ensures
            topology == self@.topology,
    {
        self.topology
    }

    /// The rules that the grid was made with.
    pub fn rules(&self) -> (rules: Rules)
        ensures
            rules == self@.rules,
    {
        self.rules
    }

    /// The state of cell (`row`, `col`), or `None` if the grid has no such
    /// cell.
    pub fn get(&self, row: usize, col: usize) -> (state: Option<CellState>)
        ensures
            state == if self@.contains(row as int, col as int) {
                Some(self@.cells[row as int][col as int])
            } else {
                None
            },
    {
        proof {
            use_type_invariant(self);
        }
        if row < self.cells.len() && col < self.cells.len() {
            assert(self@.cells[row as int] == self.cells@[row as int]@);
            Some(self.cells[row][col])
        } else {
            None
        }
    }

    /// Puts cell (`row`, `col`) into `state`, and says whether it did.
    ///
    /// The grid is left as it is where it has no such cell, and where its
    /// rules do not admit `state`.
    pub fn set(&mut self, row: usize, col: usize, state: CellState) -> (changed: bool)
        ensures
            changed == (old(self)@.contains(row as int, col as int) && old(self)@.rules.admits(
                state,
            )),
            changed ==> final(self)@ == old(self)@.put(row as int, col as int, state),
            !changed ==> final(self)@ == old(self)@,
            final(self)@.wf(),
    {
        proof {
            use_type_invariant(&*self);
        }
        let size: usize = self.cells.len();
        if row < size && col < size && self.rules.allows(state) {
            // The matrix leaves the grid while one of its rows is changed.
            let mut cells: Vec<Vec<CellState>> = Vec::new();
            std::mem::swap(&mut self.cells, &mut cells);
            cells[row][col] = state;
            proof {
                let before = old(self)@;
                let after = before.put(row as int, col as int, state);
                assert forall|r: int| 0 <= r < size implies (#[trigger] cells@[r])@
                    == after.cells[r] by {
                    assert(before.cells[r] == old(self).cells@[r]@);
                }
            }
            self.cells = cells;
            assert(self@.cells =~~= old(self)@.put(row as int, col as int, state).cells);
            true
        } else {
            false
        }
    }

    /// Draws a state for one cell: the state that stands for a number drawn
    /// uniformly from `0..100` under the three-state rules, and for the toss
    /// of a fair coin under the classic rules. Chance decides which it is.
    fn random_state(rules: Rules, rng: &mut ThreadRng) -> (state: CellState)
        ensures
            rules.can_draw(state),
            rules.admits(state),
    {
        match rules {
            Rules::ThreeState => {
                let draw: u32 = draw_between(rng, 0, 100);
                CellState::from_percent(draw)
            },
            Rules::Classic => {
                let heads: bool = draw_ratio(rng, 1, 2);
                CellState::from_coin(heads)
            },
        }
    }

    /// Replaces every cell by a state drawn at random, each cell on its own.
    ///
    /// Which states come out depends on chance. Whatever is drawn, the grid
    /// keeps its size, its topology and its rules, and holds only states that
    /// its rules admit: [`CellState::from_percent`] and
    /// [`CellState::from_coin`] say which draw gives which state.
    pub fn randomize(&mut self)
        ensures
            final(self)@.size() == old(self)@.size(),
            final(self)@.topology == old(self)@.topology,
            final(self)@.rules == old(self)@.rules,
            final(self)@.wf(),
    {
        let mut rng = thread_rng();
        let size: usize = self.cells.len();
        let rules: Rules = self.rules;
        let mut fresh: Vec<Vec<CellState>> = Vec::new();
        let mut row: usize = 0;
        while row < size
            invariant
                row <= size,
                fresh@.len() == row,
                forall|r: int| 0 <= r < row ==> (#[trigger] fresh@[r])@.len() == size,
                forall|r: int, c: int|
                    0 <= r < row && 0 <= c < size ==> rules.admits(#[trigger] fresh@[r]@[c]),
            decreases size - row,
        {
            let mut fresh_row: Vec<CellState> = Vec::new();
            let mut col: usize = 0;
            while col < size
                invariant
                    col <= size,
                    fresh_row@.len() == col,
                    forall|c: int| 0 <= c < col ==> rules.admits(#[trigger] fresh_row@[c]),
                decreases size - col,
            {
                let state: CellState = Grid::random_state(rules, &mut rng);
                fresh_row.push(state);
                col += 1;
            }
            fresh.push(fresh_row);
            row += 1;
        }
        self.cells = fresh;
    }

    /// The grid as text: one line per row, top to bottom. A line holds the
    /// glyph of each cell of its row, left to right, with nothing between
    /// them, and ends with a newline.
    pub fn render(&self) -> (text: String)
        ensures
            text@ == self@.rendered(),
    {
        proof {
            use_type_invariant(self);
        }
        let size: usize = self.cells.len();
        let ghost rows = self@.cells;
        let mut text = String::new();
        let mut row: usize = 0;
        while row < size
            invariant
                row <= size,
                size == rows.len(),
                rows == self@.cells,
                self@.wf(),
                text@ == lines_text(rows.take(row as int)),
            decreases size - row,
        {
            let ghost done = text@;
            let ghost cells = rows[row as int];
            let mut col: usize = 0;
            while col < size
                invariant
                    row < size,
                    col <= size,
                    size == cells.len(),
                    cells == self.cells@[row as int]@,
                    size == self.cells@.len(),
                    text@ == done + row_text(cells.take(col as int)),
                decreases size - col,
            {
                text.append(self.cells[row][col].character());
                proof {
                    let wider = cells.take(col + 1);
                    assert(wider.drop_last() =~= cells.take(col as int));
                }
                col += 1;
            }
            proof {
                reveal_strlit("\n");
            }
            text.append("\n");
            proof {
                let taller = rows.take(row + 1);
                assert(cells.take(size as int) =~= cells);
                assert(taller.drop_last() =~= rows.take(row as int));
            }
            row += 1;
        }
        assert(rows.take(size as int) =~= rows);
        text
    }

    /// The state of cell (`row`, `col`) in the next generation. The
    /// classic rules do not look at the Infected neighbors, which are then
    /// not counted.
    fn next_cell(&self, row: usize, col: usize) -> (state: CellState)
        requires
            self@.contains(row as int, col as int),
        ensures
            state == self@.next_cell(row as int, col as int),
    {
        proof {
            use_type_invariant(self);
        }
        assert(self@.cells[row as int] == self.cells@[row as int]@);
        let current: CellState = self.cells[row][col];
        let alive_neighbors: i32 = self.active_neighbors(row, col);
        let infected_neighbors: i32 = match self.rules {
            Rules::ThreeState => self.infected_neighbors(row, col),
            Rules::Classic => 0,
        };
        self.rules.next_state(current, alive_neighbors, infected_neighbors)
    }

    /// Replaces the grid by its next generation.
    ///
    /// Every cell of the new generation is computed from the cells of the
    /// current one into a fresh matrix, which then takes the place of the
    /// old one.
    pub fn advance(&mut self)
        ensures
            final(self)@ == old(self)@.step(),
            final(self)@.size() == old(self)@.size(),
            final(self)@.wf(),
    {
        proof {
            use_type_invariant(&*self);
        }
        let size: usize = self.cells.len();
        let ghost current = self@;
        let mut next: Vec<Vec<CellState>> = Vec::new();
        let mut row: usize = 0;
        while row < size
            invariant
                row <= size,
                size == current.size(),
                current.wf(),
                self@ == current,
                next@.len() == row,
                forall|r: int|
                    0 <= r < row ==> (#[trigger] next@[r])@ == Seq::new(
                        size as nat,
                        |c: int| current.next_cell(r, c),
                    ),
            decreases size - row,
        {
            let mut next_row: Vec<CellState> = Vec::new();
            let mut col: usize = 0;
            while col < size
                invariant
                    row < size,
                    col <= size,
                    size == current.size(),
                    current.wf(),
                    self@ == current,
                    next_row@ == Seq::new(col as nat, |c: int| current.next_cell(row as int, c)),
                decreases size - col,
            {
                let state: CellState = self.next_cell(row, col);
                next_row.push(state);
                col += 1;
            }
            next.push(next_row);
            row += 1;
        }
        proof {
            let after = current.step();
            assert forall|r: int| 0 <= r < size implies (#[trigger] next@[r])@
                == after.cells[r] by {}
        }
        self.cells = next;
        assert(self@.cells =~~= old(self)@.step().cells);
    }

    /// Counts the Alive cells among the neighbors of cell (`row`, `col`): of
    /// the eight positions around it, those that the topology resolves to a
    /// cell.
    pub fn active_neighbors(&self, row: usize, col: usize) -> (count: i32)
        requires
            self@.contains(row as int, col as int),
        ensures
            count == self@.count_neighbors(row as int, col as int, CellState::Alive),
    {
        self.count_neighbors(row, col, CellState::Alive)
    }

    /// Counts the Infected cells among the neighbors of cell (`row`, `col`):
    /// of the eight positions around it, those that the topology resolves to
    /// a cell.
    pub fn infected_neighbors(&self, row: usize, col: usize) -> (count: i32)
        requires
            self@.contains(row as int, col as int),
        ensures
            count == self@.count_neighbors(row as int, col as int, CellState::Infected),
    {
        self.count_neighbors(row, col, CellState::Infected)
    }

    /// How many of the eight positions around (`row`, `col`) refer to a cell
    /// in `state`.
    fn count_neighbors(&self, row: usize, col: usize, state: CellState) -> (count: i32)
        requires
            self@.contains(row as int, col as int),
        ensures
            count == self@.count_neighbors(row as int, col as int, state),
    {
        let above: i32 = self.hit(row, col, -1, -1, state) + self.hit(row, col, -1, 0, state)
            + self.hit(row, col, -1, 1, state);
        let beside: i32 = self.hit(row, col, 0, -1, state) + self.hit(row, col, 0, 1, state);
        let below: i32 = self.hit(row, col, 1, -1, state) + self.hit(row, col, 1, 0, state)
            + self.hit(row, col, 1, 1, state);
        above + beside + below
    }

    /// 1 if the position `row_step` rows and `col_step` columns from
    /// (`row`, `col`) refers to a cell in `state`, else 0.
    fn hit(&self, row: usize, col: usize, row_step: i8, col_step: i8, state: CellState) -> (count:
        i32)
        requires
            self@.contains(row as int, col as int),
            -1 <= row_step <= 1,
            -1 <= col_step <= 1,
        ensures
            count == self@.hit(row + row_step, col + col_step, state),
    {
        proof {
            use_type_invariant(self);
        }
        match (self.landing(row, row_step), self.landing(col, col_step)) {
            (Some(r), Some(c)) => {
                assert(self@.cells[r as int] == self.cells@[r as int]@);
                if self.cells[r][c] == state {
                    1
                } else {
                    0
                }
            },
            _ => 0,
        }
    }

    /// Where the index one `step` from `index` lands, if anywhere.
    fn landing(&self, index: usize, step: i8) -> (landed: Option<usize>)
        requires
            index < self@.size(),
            -1 <= step <= 1,
        ensures
            landed.is_some() == self@.resolve(index + step).is_some(),
            landed matches Some(i) ==> i < self@.size() && self@.resolve(index + step) == Some(
                i as int,
            ),
    {
        let size: usize = self.cells.len();
        proof {
            lemma_ring_step(index as int, size as int);
        }
        if step == 0 {
            Some(index)
        } else if step < 0 {
            if index > 0 {
                Some(index - 1)
            } else {
                match self.topology {
                    Topology::Bounded => None,
                    Topology::Toroidal => Some(size - 1),
                }
            }
        } else {
            if index + 1 < size {
                Some(index + 1)
            } else {
                match self.topology {
                    Topology::Bounded => None,
                    Topology::Toroidal => Some(0),
                }
            }
        }
    }
}

} // verus!
