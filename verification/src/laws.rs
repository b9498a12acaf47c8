//! What holds of every grid: laws of the model, each proved once and for
//! all.

use vstd::prelude::*;
use vstd::set_lib::{lemma_int_range, set_int_range};
use crate::cell::CellState;
use crate::model::{lemma_ring_step, lines_text, row_text, GridView};
use crate::policy::{Rules, Topology};
use crate::simulation::SimulationView;

verus! {

/// One generation changes neither the number of rows nor the number of
/// columns, nor the topology, nor the rules; and the next generation of a
/// well-formed grid is well-formed.
pub proof fn lemma_step_keeps_shape(grid: GridView)
    ensures
        grid.step().size() == grid.size(),
        forall|row: int|
            0 <= row < grid.size() ==> (#[trigger] grid.step().cells[row]).len() == grid.size(),
        grid.step().topology == grid.topology,
        grid.step().rules == grid.rules,
        grid.wf() ==> grid.step().wf(),
{
}

/// Any number of generations changes neither the number of rows nor the
/// number of columns, nor the topology, nor the rules.
pub proof fn lemma_generations_keep_shape(grid: GridView, count: nat)
    ensures
        grid.generations(count).size() == grid.size(),
        grid.generations(count).topology == grid.topology,
        grid.generations(count).rules == grid.rules,
        grid.wf() ==> grid.generations(count).wf(),
    decreases count,
{
    if count > 0 {
        lemma_generations_keep_shape(grid, (count - 1) as nat);
        lemma_step_keeps_shape(grid.generations((count - 1) as nat));
    }
}

/// The next generation depends on nothing but the cells, the topology and
/// the rules: two grids that agree in these have the same next generation.
pub proof fn lemma_step_is_deterministic(first: GridView, second: GridView)
    requires
        first.cells == second.cells,
        first.topology == second.topology,
        first.rules == second.rules,
    ensures
        first.step() == second.step(),
{
}

/// Under the three-state rules Infected is absorbing: a cell that is
/// Infected after `since` generations is Infected after any `later` number
/// of generations too.
pub proof fn lemma_infected_is_absorbing(
    grid: GridView,
    row: int,
    col: int,
    since: nat,
    later: nat,
)
    requires
        grid.rules == Rules::ThreeState,
        grid.contains(row, col),
        since <= later,
        grid.generations(since).cells[row][col] == CellState::Infected,
    ensures
        grid.generations(later).cells[row][col] == CellState::Infected,
    decreases later - since,
{
    if since < later {
        lemma_infected_is_absorbing(grid, row, col, since, (later - 1) as nat);
        lemma_generations_keep_shape(grid, (later - 1) as nat);
    }
}

/// Under the classic rules an Alive cell without an Alive neighbor is Dead
/// in the next generation.
pub proof fn lemma_lonely_cell_dies(grid: GridView, row: int, col: int)
    requires
        grid.rules == Rules::Classic,
        grid.contains(row, col),
        grid.cells[row][col] == CellState::Alive,
        grid.count_neighbors(row, col, CellState::Alive) == 0,
    ensures
        grid.step().cells[row][col] == CellState::Dead,
{
}

/// At most as many neighbors are in one state as there are neighbors, and
/// there are at most eight.
pub proof fn lemma_count_within_neighborhood(
    grid: GridView,
    row: int,
    col: int,
    state: CellState,
)
    ensures
        grid.count_neighbors(row, col, state) <= grid.neighborhood(row, col) <= 8,
{
}

/// On a bounded grid of side 2 or more a corner cell has three neighbors.
pub proof fn lemma_corner_has_three_neighbors(grid: GridView, row: int, col: int)
    requires
        grid.topology == Topology::Bounded,
        grid.size() >= 2,
        row == 0 || row == grid.size() - 1,
        col == 0 || col == grid.size() - 1,
    ensures
        grid.neighborhood(row, col) == 3,
{
}

/// On a bounded grid a cell on an edge, but not in a corner, has five
/// neighbors.
pub proof fn lemma_edge_has_five_neighbors(grid: GridView, row: int, col: int)
    requires
        grid.topology == Topology::Bounded,
        grid.contains(row, col),
        (row == 0 || row == grid.size() - 1) != (col == 0 || col == grid.size() - 1),
    ensures
        grid.neighborhood(row, col) == 5,
{
}

/// On a bounded grid a cell that is on no edge has eight neighbors.
pub proof fn lemma_inner_cell_has_eight_neighbors(grid: GridView, row: int, col: int)
    requires
        grid.topology == Topology::Bounded,
        0 < row < grid.size() - 1,
        0 < col < grid.size() - 1,
    ensures
        grid.neighborhood(row, col) == 8,
{
}

/// On a toroidal grid every position has eight neighbors.
pub proof fn lemma_torus_has_eight_neighbors(grid: GridView, row: int, col: int)
    requires
        grid.topology == Topology::Toroidal,
    ensures
        grid.neighborhood(row, col) == 8,
{
}

/// On a toroidal grid the cell in the first row and first column has the
/// cell in the last row and last column as its neighbor up and to the left,
/// and the last cell of its own row as its neighbor to the left. Each counts
/// among its neighbors in that cell's state.
pub proof fn lemma_torus_wraps_at_origin(grid: GridView)
    requires
        grid.topology == Topology::Toroidal,
        grid.size() >= 1,
    ensures
        grid.cell_at(0 - 1, 0 - 1) == Some(grid.cells[grid.size() - 1][grid.size() - 1]),
        grid.cell_at(0, 0 - 1) == Some(grid.cells[0][grid.size() - 1]),
        grid.count_neighbors(0, 0, grid.cells[grid.size() - 1][grid.size() - 1]) >= 1,
        grid.count_neighbors(0, 0, grid.cells[0][grid.size() - 1]) >= 1,
{
    lemma_ring_step(0, grid.size() as int);
}

/// Of the hundred draws `0..100`, 52 stand for Alive, 47 for Dead and one
/// for Infected.
pub proof fn lemma_percent_shares()
    ensures
        Set::new(|draw: int| 0 <= draw < 100 && CellState::of_percent(draw) == CellState::Alive).len()
            == 52,
        Set::new(|draw: int| 0 <= draw < 100 && CellState::of_percent(draw) == CellState::Dead).len()
            == 47,
        Set::new(
            |draw: int| 0 <= draw < 100 && CellState::of_percent(draw) == CellState::Infected,
        ).len() == 1,
{
    lemma_int_range(0, 52);
    lemma_int_range(52, 99);
    lemma_int_range(99, 100);
    assert(Set::new(|draw: int| 0 <= draw < 100 && CellState::of_percent(draw) == CellState::Alive)
        =~= set_int_range(0, 52));
    assert(Set::new(|draw: int| 0 <= draw < 100 && CellState::of_percent(draw) == CellState::Dead)
        =~= set_int_range(52, 99));
    assert(Set::new(
        |draw: int| 0 <= draw < 100 && CellState::of_percent(draw) == CellState::Infected,
    ) =~= set_int_range(99, 100));
}

/// The three glyphs have three characters each and differ from one another.
pub proof fn lemma_glyphs_differ(first: CellState, second: CellState)
    ensures
        first.glyph().len() == 3,
        first != second ==> first.glyph() != second.glyph(),
{
}

/// Whether cell (`row`, `col`) belongs to the square of four cells whose
/// upper left cell is (`top`, `left`). On a toroidal grid the square may lie
/// across an edge.
pub open spec fn in_block(grid: GridView, top: int, left: int, row: int, col: int) -> bool {
    &&& row == top || Some(row) == grid.resolve(top + 1)
    &&& col == left || Some(col) == grid.resolve(left + 1)
}

/// Whether the four cells of the square at (`top`, `left`) are Alive and all
/// other cells of the grid are Dead.
pub open spec fn is_lone_block(grid: GridView, top: int, left: int) -> bool {
    &&& grid.contains(top, left)
    &&& grid.cell_at(top + 1, left + 1).is_some()
    &&& forall|row: int, col: int|
        grid.contains(row, col) ==> #[trigger] grid.cells[row][col] == if in_block(
            grid,
            top,
            left,
            row,
            col,
        ) {
            CellState::Alive
        } else {
            CellState::Dead
        }
}

/// A square of four Alive cells in an otherwise Dead grid is a still life:
/// the grid is the same after any number of generations.
///
/// On a toroidal grid this needs a side of 3 or more: on a torus of side 2
/// the square fills the grid, each cell meets Alive cells at all eight
/// positions around it, and dies.
pub proof fn lemma_block_is_still(grid: GridView, top: int, left: int, count: nat)
    requires
        grid.wf(),
        grid.topology == Topology::Toroidal ==> grid.size() >= 3,
        is_lone_block(grid, top, left),
    ensures
        grid.generations(count) == grid,
    decreases count,
{
    if count > 0 {
        lemma_block_is_still(grid, top, left, (count - 1) as nat);
        lemma_block_survives(grid, top, left);
    }
}

/// One generation leaves a lone block as it is.
proof fn lemma_block_survives(grid: GridView, top: int, left: int)
    requires
        grid.wf(),
        grid.topology == Topology::Toroidal ==> grid.size() >= 3,
        is_lone_block(grid, top, left),
    ensures
        grid.step() == grid,
{
    let size = grid.size() as int;
    assert forall|row: int, col: int| grid.contains(row, col) implies grid.next_cell(row, col)
        == grid.cells[row][col] by {
        lemma_block_cell_stays(grid, top, left, row, col);
    }
    assert forall|row: int| 0 <= row < size implies #[trigger] grid.step().cells[row]
        =~= grid.cells[row] by {}
    assert(grid.step().cells =~= grid.cells);
}

/// In a lone block each cell has the state in the next generation that it
/// has now.
proof fn lemma_block_cell_stays(grid: GridView, top: int, left: int, row: int, col: int)
    requires
        grid.wf(),
        grid.topology == Topology::Toroidal ==> grid.size() >= 3,
        is_lone_block(grid, top, left),
        grid.contains(row, col),
    ensures
        grid.next_cell(row, col) == grid.cells[row][col],
{
    let size = grid.size() as int;
    lemma_ring_step(row, size);
    lemma_ring_step(col, size);
    lemma_ring_step(top, size);
    lemma_ring_step(left, size);
}

/// A round of the simulation has three steps, and moves the grid on by
/// exactly one generation: three steps on, the simulation stands where it
/// stood in its round, one generation later.
pub proof fn lemma_round_is_one_generation(simulation: SimulationView)
    ensures
        simulation.next().next().next().phase == simulation.phase,
        simulation.next().next().next().grid == simulation.grid.step(),
{
}

/// The states that a random draw can give are the states that the rules
/// admit, all of them and no others: under the three-state rules each
/// state stands for a number of `0..100`, under the classic rules each state
/// but Infected stands for a side of the coin.
pub proof fn lemma_draws_cover_admitted_states(rules: Rules, state: CellState)
    ensures
        rules.can_draw(state) <==> rules.admits(state),
{
    assert(CellState::of_percent(0) == CellState::Alive);
    assert(CellState::of_percent(52) == CellState::Dead);
    assert(CellState::of_percent(99) == CellState::Infected);
    assert(CellState::of_coin(true) == CellState::Alive);
    assert(CellState::of_coin(false) == CellState::Dead);
}

/// The text of a row has three characters for each cell: the glyph of cell
/// `col` stands at the places `3 * col`, `3 * col + 1` and `3 * col + 2`.
pub proof fn lemma_row_text_layout(row: Seq<CellState>)
    ensures
        row_text(row).len() == 3 * row.len(),
        forall|col: int, place: int|
            0 <= col < row.len() && 0 <= place < 3 ==> row_text(row)[3 * col + place]
                == #[trigger] row[col].glyph()[place],
    decreases row.len(),
{
    if row.len() > 0 {
        let front = row.drop_last();
        lemma_row_text_layout(front);
        assert forall|col: int, place: int|
            0 <= col < row.len() && 0 <= place < 3 implies row_text(row)[3 * col + place]
            == #[trigger] row[col].glyph()[place] by {
            if col < front.len() {
                assert(row_text(front)[3 * col + place] == front[col].glyph()[place]);
            }
        }
    }
}

/// The rendered text of a well-formed grid of side `n` has `n` lines of
/// `3 * n` characters and a newline each: line `row` starts at place
/// `row * (3 * n + 1)`, holds the glyph of cell (`row`, `col`) from its place
/// `3 * col` on, and ends with the newline.
pub proof fn lemma_rendered_layout(grid: GridView)
    requires
        grid.wf(),
    ensures
        grid.rendered().len() == grid.size() * (3 * grid.size() + 1),
        forall|row: int, col: int, place: int|
            grid.contains(row, col) && 0 <= place < 3 ==> grid.rendered()[row * (3 * grid.size()
                + 1) + 3 * col + place] == #[trigger] grid.cells[row][col].glyph()[place],
        forall|row: int|
            0 <= row < grid.size() ==> #[trigger] grid.rendered()[row * (3 * grid.size() + 1) + 3
                * grid.size()] == '\n',
{
    lemma_lines_text_layout(grid.cells, grid.size());
}

/// Lines of equal length follow one another: an earlier line ends where a
/// later one starts, or before.
proof fn lemma_line_ends_before(row: int, later: int, line: int)
    by (nonlinear_arith)
    requires
        0 <= row < later,
        line >= 0,
    ensures
        row * line + line <= later * line,
{
}

/// The layout of the text of rows that all have `width` cells.
proof fn lemma_lines_text_layout(rows: Seq<Seq<CellState>>, width: nat)
    requires
        forall|row: int| 0 <= row < rows.len() ==> (#[trigger] rows[row]).len() == width,
    ensures
        lines_text(rows).len() == rows.len() * (3 * width + 1),
        forall|row: int, col: int, place: int|
            0 <= row < rows.len() && 0 <= col < width && 0 <= place < 3 ==> lines_text(rows)[row
                * (3 * width + 1) + 3 * col + place] == #[trigger] rows[row][col].glyph()[place],
        forall|row: int|
            0 <= row < rows.len() ==> #[trigger] lines_text(rows)[row * (3 * width + 1) + 3
                * width] == '\n',
    decreases rows.len(),
{
    let line: int = 3 * (width as int) + 1;
    if rows.len() > 0 {
        let above = rows.drop_last();
        let last = rows.len() - 1;
        lemma_lines_text_layout(above, width);
        lemma_row_text_layout(rows.last());
        assert(rows.len() * line == last * line + line) by (nonlinear_arith)
            requires
                last == rows.len() - 1,
        ;
        assert forall|row: int, col: int, place: int|
            0 <= row < rows.len() && 0 <= col < width && 0 <= place < 3 implies lines_text(
            rows,
        )[row * line + 3 * col + place] == #[trigger] rows[row][col].glyph()[place] by {
            if row < last {
                lemma_line_ends_before(row, last, line);
                assert(lines_text(above)[row * line + 3 * col + place]
                    == above[row][col].glyph()[place]);
            }
        }
        assert forall|row: int| 0 <= row < rows.len() implies #[trigger] lines_text(rows)[row
            * line + 3 * width] == '\n' by {
            if row < last {
                lemma_line_ends_before(row, last, line);
            }
        }
    } else {
        assert(rows.len() * line == 0) by (nonlinear_arith)
            requires
                rows.len() == 0,
        ;
    }
}

} // verus!
