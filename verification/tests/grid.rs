use game_of_life::cell::CellState;
use game_of_life::grid::Grid;
use game_of_life::policy::{Rules, Topology};

/// Builds a grid from one string per row: `.` Dead, `#` Alive, `X` Infected.
fn grid_of(topology: Topology, rules: Rules, rows: &[&str]) -> Grid {
    let mut grid = Grid::with_policy(rows.len(), topology, rules);
    for (row, line) in rows.iter().enumerate() {
        assert_eq!(line.chars().count(), rows.len());
        for (col, mark) in line.chars().enumerate() {
            let state = match mark {
                '.' => CellState::Dead,
                '#' => CellState::Alive,
                'X' => CellState::Infected,
                other => panic!("unknown mark {}", other),
            };
            assert!(grid.set(row, col, state));
        }
    }
    grid
}

#[test]
fn new_grid_is_all_dead() {
    let grid = Grid::new(4);
    assert_eq!(grid.size(), 4);
    for row in 0..4 {
        for col in 0..4 {
            assert_eq!(grid.get(row, col), Some(CellState::Dead));
        }
    }
}

#[test]
fn new_grid_is_bounded_and_three_state() {
    let grid = Grid::new(5);
    assert_eq!(grid.topology(), Topology::Bounded);
    assert_eq!(grid.rules(), Rules::ThreeState);
}

#[test]
fn with_policy_keeps_what_it_is_given() {
    let grid = Grid::with_policy(7, Topology::Toroidal, Rules::Classic);
    assert_eq!(grid.size(), 7);
    assert_eq!(grid.topology(), Topology::Toroidal);
    assert_eq!(grid.rules(), Rules::Classic);
    assert_eq!(grid.get(6, 6), Some(CellState::Dead));
}

#[test]
fn new_equals_bounded_three_state_policy() {
    assert_eq!(Grid::new(6), Grid::with_policy(6, Topology::Bounded, Rules::ThreeState));
}

#[test]
fn empty_grid_has_no_cells() {
    let mut grid = Grid::new(0);
    assert_eq!(grid.size(), 0);
    assert_eq!(grid.get(0, 0), None);
    assert!(!grid.set(0, 0, CellState::Alive));
    assert_eq!(grid.render(), "");
    grid.advance();
    assert_eq!(grid.size(), 0);
    grid.randomize();
    assert_eq!(grid.size(), 0);
}

#[test]
fn get_outside_the_grid_is_none() {
    let grid = Grid::new(3);
    assert_eq!(grid.get(3, 0), None);
    assert_eq!(grid.get(0, 3), None);
    assert_eq!(grid.get(3, 3), None);
    assert_eq!(grid.get(usize::MAX, 1), None);
    assert_eq!(grid.get(2, 2), Some(CellState::Dead));
}

#[test]
fn set_changes_one_cell_only() {
    let mut grid = Grid::new(3);
    assert!(grid.set(1, 2, CellState::Infected));
    for row in 0..3 {
        for col in 0..3 {
            let expected = if (row, col) == (1, 2) { CellState::Infected } else { CellState::Dead };
            assert_eq!(grid.get(row, col), Some(expected));
        }
    }
    assert!(grid.set(1, 2, CellState::Alive));
    assert_eq!(grid.get(1, 2), Some(CellState::Alive));
}

#[test]
fn set_outside_the_grid_changes_nothing() {
    let mut grid = Grid::new(3);
    assert!(!grid.set(3, 0, CellState::Alive));
    assert!(!grid.set(0, 3, CellState::Alive));
    assert_eq!(grid, Grid::new(3));
}

#[test]
fn classic_grid_refuses_infected() {
    let mut grid = Grid::with_policy(3, Topology::Toroidal, Rules::Classic);
    assert!(!grid.set(1, 1, CellState::Infected));
    assert_eq!(grid.get(1, 1), Some(CellState::Dead));
    assert!(grid.set(1, 1, CellState::Alive));
    assert_eq!(grid.get(1, 1), Some(CellState::Alive));
}

#[test]
fn bounded_corner_counts_three_positions() {
    let grid = grid_of(Topology::Bounded, Rules::ThreeState, &["####", "####", "####", "####"]);
    assert_eq!(grid.active_neighbors(0, 0), 3);
    assert_eq!(grid.active_neighbors(0, 3), 3);
    assert_eq!(grid.active_neighbors(3, 0), 3);
    assert_eq!(grid.active_neighbors(3, 3), 3);
}

#[test]
fn bounded_edge_counts_five_positions() {
    let grid = grid_of(Topology::Bounded, Rules::ThreeState, &["####", "####", "####", "####"]);
    assert_eq!(grid.active_neighbors(0, 1), 5);
    assert_eq!(grid.active_neighbors(2, 0), 5);
    assert_eq!(grid.active_neighbors(3, 2), 5);
    assert_eq!(grid.active_neighbors(1, 3), 5);
}

#[test]
fn bounded_inner_cell_counts_eight_positions() {
    let grid = grid_of(Topology::Bounded, Rules::ThreeState, &["####", "####", "####", "####"]);
    assert_eq!(grid.active_neighbors(1, 1), 8);
    assert_eq!(grid.active_neighbors(2, 2), 8);
}

#[test]
fn bounded_single_cell_has_no_neighbors() {
    let grid = grid_of(Topology::Bounded, Rules::ThreeState, &["#"]);
    assert_eq!(grid.active_neighbors(0, 0), 0);
    assert_eq!(grid.infected_neighbors(0, 0), 0);
}

#[test]
fn a_cell_is_not_its_own_neighbor() {
    let grid = grid_of(Topology::Bounded, Rules::ThreeState, &["...", ".#.", "..."]);
    assert_eq!(grid.active_neighbors(1, 1), 0);
    let torus = grid_of(Topology::Toroidal, Rules::Classic, &["...", ".#.", "..."]);
    assert_eq!(torus.active_neighbors(1, 1), 0);
}

#[test]
fn each_of_the_eight_positions_counts() {
    let marks = [(0, 0), (0, 1), (0, 2), (1, 0), (1, 2), (2, 0), (2, 1), (2, 2)];
    for (row, col) in marks {
        let mut grid = Grid::new(3);
        assert!(grid.set(row, col, CellState::Alive));
        assert_eq!(grid.active_neighbors(1, 1), 1);
        assert_eq!(grid.infected_neighbors(1, 1), 0);
        assert!(grid.set(row, col, CellState::Infected));
        assert_eq!(grid.active_neighbors(1, 1), 0);
        assert_eq!(grid.infected_neighbors(1, 1), 1);
    }
}

#[test]
fn alive_and_infected_are_counted_apart() {
    let grid = grid_of(Topology::Bounded, Rules::ThreeState, &["#X#", "X.X", ".#."]);
    assert_eq!(grid.active_neighbors(1, 1), 3);
    assert_eq!(grid.infected_neighbors(1, 1), 3);
    assert_eq!(grid.active_neighbors(0, 0), 0);
    assert_eq!(grid.infected_neighbors(0, 0), 2);
    assert_eq!(grid.active_neighbors(2, 2), 1);
    assert_eq!(grid.infected_neighbors(2, 2), 1);
}

#[test]
fn torus_origin_sees_the_far_corner_diagonally() {
    let grid = grid_of(Topology::Toroidal, Rules::Classic, &["....", "....", "....", "...#"]);
    assert_eq!(grid.active_neighbors(0, 0), 1);
}

#[test]
fn torus_origin_sees_the_end_of_its_row() {
    let grid = grid_of(Topology::Toroidal, Rules::Classic, &["...#", "....", "....", "...."]);
    assert_eq!(grid.active_neighbors(0, 0), 1);
}

#[test]
fn torus_origin_sees_the_end_of_its_column() {
    let grid = grid_of(Topology::Toroidal, Rules::Classic, &["....", "....", "....", "#..."]);
    assert_eq!(grid.active_neighbors(0, 0), 1);
}

#[test]
fn bounded_origin_does_not_see_across_the_edge() {
    let grid = grid_of(Topology::Bounded, Rules::ThreeState, &["...#", "....", "....", "#..#"]);
    assert_eq!(grid.active_neighbors(0, 0), 0);
}

#[test]
fn torus_counts_eight_positions_everywhere() {
    let grid = grid_of(Topology::Toroidal, Rules::Classic, &["####", "####", "####", "####"]);
    for row in 0..4 {
        for col in 0..4 {
            assert_eq!(grid.active_neighbors(row, col), 8);
        }
    }
}

#[test]
fn torus_last_cell_wraps_forward() {
    let grid = grid_of(Topology::Toroidal, Rules::Classic, &["#...", "....", "....", "...."]);
    assert_eq!(grid.active_neighbors(3, 3), 1);
    assert_eq!(grid.active_neighbors(3, 0), 1);
    assert_eq!(grid.active_neighbors(0, 3), 1);
    assert_eq!(grid.active_neighbors(2, 2), 0);
}

#[test]
fn torus_of_one_cell_meets_itself_eight_times() {
    let grid = grid_of(Topology::Toroidal, Rules::Classic, &["#"]);
    assert_eq!(grid.active_neighbors(0, 0), 8);
}

#[test]
fn torus_of_side_two_counts_cells_more_than_once() {
    let grid = grid_of(Topology::Toroidal, Rules::Classic, &["#.", ".."]);
    assert_eq!(grid.active_neighbors(0, 0), 0);
    assert_eq!(grid.active_neighbors(0, 1), 2);
    assert_eq!(grid.active_neighbors(1, 0), 2);
    assert_eq!(grid.active_neighbors(1, 1), 4);
}

#[test]
fn three_state_torus_counts_infected_across_the_edge() {
    let grid = grid_of(Topology::Toroidal, Rules::ThreeState, &["...", "...", "..X"]);
    assert_eq!(grid.infected_neighbors(0, 0), 1);
    assert_eq!(grid.active_neighbors(0, 0), 0);
}

#[test]
fn render_writes_one_line_per_row() {
    let grid = grid_of(Topology::Bounded, Rules::ThreeState, &["#.", "X#"]);
    assert_eq!(grid.render(), "███░░░\nXXX███\n");
}

#[test]
fn render_of_a_dead_grid() {
    assert_eq!(Grid::new(3).render(), "░░░░░░░░░\n░░░░░░░░░\n░░░░░░░░░\n");
}

#[test]
fn render_of_a_single_cell() {
    let grid = grid_of(Topology::Bounded, Rules::ThreeState, &["X"]);
    assert_eq!(grid.render(), "XXX\n");
}

#[test]
fn render_has_a_glyph_per_cell_and_a_newline_per_row() {
    let grid = Grid::with_policy(30, Topology::Bounded, Rules::ThreeState);
    let text = grid.render();
    assert_eq!(text.chars().count(), 30 * (3 * 30 + 1));
    assert_eq!(text.lines().count(), 30);
    for line in text.lines() {
        assert_eq!(line.chars().count(), 90);
    }
    assert!(text.ends_with('\n'));
}

#[test]
fn render_leaves_the_grid_as_it_is() {
    let grid = grid_of(Topology::Bounded, Rules::ThreeState, &["#.X", ".#.", "X.#"]);
    let first = grid.render();
    let second = grid.render();
    assert_eq!(first, second);
    assert_eq!(grid, grid_of(Topology::Bounded, Rules::ThreeState, &["#.X", ".#.", "X.#"]));
}
