use rust_gol::CellState;
use rust_gol::Grid;
use rust_gol::convert_to_pattern;

fn alive_cells(g: &Grid) -> Vec<(usize, usize)> {
    let mut cells = vec![];
    for y in 0..g.rows {
        for x in 0..g.columns {
            if g.state[y][x] == CellState::Alive {
                cells.push((x, y));
            }
        }
    }
    cells
}

#[test]
fn new_grid_is_all_dead() {
    let g = Grid::new(7, 4);
    assert_eq!(g.columns, 7);
    assert_eq!(g.rows, 4);
    assert_eq!(g.state.len(), 4);
    for row in g.state.iter() {
        assert_eq!(row.len(), 7);
        for cell in row.iter() {
            assert_eq!(*cell, CellState::Dead);
        }
    }
}

#[test]
fn new_grid_zero_dimensions() {
    let g = Grid::new(0, 0);
    assert_eq!(g.columns, 0);
    assert_eq!(g.rows, 0);
    assert_eq!(g.state.len(), 0);
}

#[test]
fn convert_to_pattern_maps_ones_to_alive() {
    let pattern = convert_to_pattern(vec![vec![0, 1, 2], vec![1, 0]]);
    assert_eq!(pattern.len(), 2);
    assert_eq!(pattern[0], vec![CellState::Dead, CellState::Alive, CellState::Dead]);
    assert_eq!(pattern[1], vec![CellState::Alive, CellState::Dead]);
}

#[test]
fn set_pattern_exact_dimensions_copies_whole_grid() {
    let mut g = Grid::new(3, 2);
    let pattern = convert_to_pattern(vec![vec![1, 0, 1], vec![0, 1, 0]]);
    let expected = pattern.clone();
    let r = g.set_pattern(0, 0, pattern);
    assert!(r.is_ok());
    assert_eq!(g.state, expected);
}

#[test]
fn set_pattern_at_offset_leaves_rest_untouched() {
    let mut g = Grid::new(4, 4);
    let pattern = convert_to_pattern(vec![vec![1, 1], vec![1, 1]]);
    let r = g.set_pattern(1, 2, pattern);
    assert!(r.is_ok());
    assert_eq!(alive_cells(&g), vec![(1, 2), (2, 2), (1, 3), (2, 3)]);
}

#[test]
fn set_pattern_too_many_rows_fails_without_writing() {
    let mut g = Grid::new(4, 4);
    let snapshot = g.state.clone();
    let pattern = convert_to_pattern(vec![vec![1], vec![1], vec![1]]);
    let r = g.set_pattern(0, 2, pattern);
    assert_eq!(r, Err("Invalid position"));
    assert_eq!(g.state, snapshot);
}

#[test]
fn set_pattern_too_wide_fails_without_writing() {
    let mut g = Grid::new(4, 4);
    let snapshot = g.state.clone();
    let pattern = convert_to_pattern(vec![vec![1, 1, 1]]);
    let r = g.set_pattern(2, 0, pattern);
    assert_eq!(r, Err("Invalid position"));
    assert_eq!(g.state, snapshot);
}

#[test]
fn set_pattern_on_empty_grid_fails() {
    let mut g = Grid::new(0, 0);
    let pattern = convert_to_pattern(vec![vec![1]]);
    assert_eq!(g.set_pattern(0, 0, pattern), Err("Invalid position"));
}

#[test]
fn set_pattern_ragged_rows_are_copied_leniently() {
    // Bounds are validated against the first row's width only; a narrower
    // later row ends early and a wider one is truncated at the grid edge.
    let mut g = Grid::new(4, 3);
    let pattern = convert_to_pattern(vec![vec![1, 1], vec![1], vec![1, 1, 1, 1, 1]]);
    let r = g.set_pattern(1, 0, pattern);
    assert!(r.is_ok());
    assert_eq!(alive_cells(&g), vec![(1, 0), (2, 0), (1, 1), (1, 2), (2, 2), (3, 2)]);
}

#[test]
fn lone_interior_cell_dies_of_underpopulation() {
    let mut g = Grid::new(5, 5);
    let pattern = convert_to_pattern(vec![vec![1]]);
    g.set_pattern(2, 2, pattern).unwrap();
    g.tick().unwrap();
    assert_eq!(alive_cells(&g), vec![]);
}

#[test]
fn block_is_a_still_life_for_five_generations() {
    let mut g = Grid::new(6, 6);
    let pattern = convert_to_pattern(vec![vec![1, 1], vec![1, 1]]);
    g.set_pattern(2, 2, pattern).unwrap();
    let expected = vec![(2, 2), (3, 2), (2, 3), (3, 3)];
    for _ in 0..5 {
        g.tick().unwrap();
        assert_eq!(alive_cells(&g), expected);
    }
}

#[test]
fn blinker_oscillates_with_period_two() {
    let mut g = Grid::new(7, 7);
    let pattern = convert_to_pattern(vec![vec![1, 1, 1]]);
    g.set_pattern(2, 3, pattern).unwrap();
    g.tick().unwrap();
    assert_eq!(alive_cells(&g), vec![(3, 2), (3, 3), (3, 4)]);
    g.tick().unwrap();
    assert_eq!(alive_cells(&g), vec![(2, 3), (3, 3), (4, 3)]);
}

#[test]
fn edge_cell_is_never_born_despite_three_live_neighbours() {
    // A vertical line in column 1 would, under unrestricted rules, give
    // birth to (0, 2) on the left edge. The boundary rule keeps every cell
    // of the outermost ring out of the re-check path, so only the interior
    // cell (2, 2) is born.
    let mut g = Grid::new(5, 5);
    let pattern = convert_to_pattern(vec![vec![1], vec![1], vec![1]]);
    g.set_pattern(1, 1, pattern).unwrap();
    g.tick().unwrap();
    assert_eq!(g.state[2][0], CellState::Dead);
    assert_eq!(alive_cells(&g), vec![(1, 2), (2, 2)]);
}

#[test]
fn live_cell_on_the_ring_sees_no_neighbours_and_dies() {
    let mut g = Grid::new(5, 5);
    let pattern = convert_to_pattern(vec![vec![1, 1], vec![1, 1]]);
    // Block in the top-left corner: (0,0), (1,0), (0,1) sit on the ring.
    g.set_pattern(0, 0, pattern).unwrap();
    g.tick().unwrap();
    // The ring cells die; (1,1) keeps the other three block cells as
    // neighbours and survives; no cell reaches a count of three afterwards.
    assert_eq!(alive_cells(&g), vec![(1, 1)]);
}

#[test]
fn tick_on_all_dead_grid_stays_all_dead() {
    let mut g = Grid::new(6, 4);
    for _ in 0..5 {
        g.tick().unwrap();
        assert_eq!(alive_cells(&g), vec![]);
    }
}

#[test]
fn tick_on_empty_grid_succeeds() {
    let mut g = Grid::new(0, 0);
    assert!(g.tick().is_ok());
    let mut g2 = Grid::new(3, 0);
    assert!(g2.tick().is_ok());
}
