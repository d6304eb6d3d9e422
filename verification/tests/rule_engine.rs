use game_of_life::cell::Cell;
use game_of_life::grid::{Grid, GridError};
use game_of_life::rules::next_state;

fn grid_with(width: usize, height: usize, alive: &[(usize, usize)]) -> Grid {
    let mut grid = Grid::new(width, height).unwrap();
    for &(x, y) in alive {
        grid.set(x, y, Cell::Alive).unwrap();
    }
    grid
}

fn cells_in_state(grid: &Grid, state: Cell) -> Vec<(usize, usize)> {
    let mut found: Vec<(usize, usize)> =
        grid.iter().into_iter().filter(|e| e.2 == state).map(|e| (e.0, e.1)).collect();
    found.sort();
    found
}

#[test]
fn rule_table_for_a_live_cell() {
    assert_eq!(next_state(Cell::Alive, 0), Cell::Dead);
    assert_eq!(next_state(Cell::Alive, 1), Cell::Dead);
    assert_eq!(next_state(Cell::Alive, 2), Cell::Alive);
    assert_eq!(next_state(Cell::Alive, 3), Cell::Alive);
    for n in 4..=8 {
        assert_eq!(next_state(Cell::Alive, n), Cell::Dead);
    }
}

#[test]
fn rule_table_for_a_cell_that_is_not_alive() {
    for n in 0..=8 {
        let born = n == 3;
        assert_eq!(next_state(Cell::Empty, n), if born { Cell::Alive } else { Cell::Empty });
        assert_eq!(next_state(Cell::Dead, n), if born { Cell::Alive } else { Cell::Dead });
    }
}

#[test]
fn empty_grid_stays_empty() {
    let mut grid = Grid::new(7, 5).unwrap();
    grid.advance();
    assert_eq!(grid.dimensions(), (7, 5));
    assert_eq!(cells_in_state(&grid, Cell::Empty).len(), 35);
}

#[test]
fn isolated_cell_dies() {
    let mut grid = grid_with(5, 5, &[(2, 2)]);
    assert_eq!(grid.live_neighbors(2, 2), Ok(0));
    grid.advance();
    assert_eq!(grid.get(2, 2), Ok(Cell::Dead));
    assert_eq!(cells_in_state(&grid, Cell::Alive), vec![]);
    assert_eq!(cells_in_state(&grid, Cell::Dead), vec![(2, 2)]);
}

#[test]
fn isolated_cell_in_a_corner_dies() {
    let mut grid = grid_with(3, 3, &[(0, 0)]);
    grid.advance();
    assert_eq!(grid.get(0, 0), Ok(Cell::Dead));
}

#[test]
fn block_is_a_still_life() {
    let mut grid = grid_with(6, 6, &[(2, 2), (3, 2), (2, 3), (3, 3)]);
    let before = grid.iter();
    grid.advance();
    assert_eq!(grid.iter(), before);
    grid.advance();
    assert_eq!(grid.iter(), before);
}

#[test]
fn block_in_a_corner_is_a_still_life() {
    let mut grid = grid_with(2, 2, &[(0, 0), (1, 0), (0, 1), (1, 1)]);
    let before = grid.iter();
    grid.advance();
    assert_eq!(grid.iter(), before);
}

#[test]
fn blinker_turns_and_returns() {
    let mut grid = grid_with(5, 5, &[(1, 2), (2, 2), (3, 2)]);
    grid.advance();
    assert_eq!(cells_in_state(&grid, Cell::Alive), vec![(2, 1), (2, 2), (2, 3)]);
    assert_eq!(cells_in_state(&grid, Cell::Dead), vec![(1, 2), (3, 2)]);
    assert_eq!(cells_in_state(&grid, Cell::Empty).len(), 20);
    grid.advance();
    assert_eq!(cells_in_state(&grid, Cell::Alive), vec![(1, 2), (2, 2), (3, 2)]);
    assert_eq!(cells_in_state(&grid, Cell::Dead), vec![(2, 1), (2, 3)]);
    assert_eq!(cells_in_state(&grid, Cell::Empty).len(), 20);
}

#[test]
fn blinker_on_the_edge_is_cut_off() {
    // On the top row there is no cell above the middle to be born.
    let mut grid = grid_with(5, 5, &[(1, 0), (2, 0), (3, 0)]);
    grid.advance();
    assert_eq!(cells_in_state(&grid, Cell::Alive), vec![(2, 0), (2, 1)]);
    assert_eq!(cells_in_state(&grid, Cell::Dead), vec![(1, 0), (3, 0)]);
}

#[test]
fn glider_moves_one_cell_diagonally_in_four_generations() {
    let mut grid = grid_with(6, 6, &[(1, 0), (2, 1), (0, 2), (1, 2), (2, 2)]);
    for _ in 0..4 {
        grid.advance();
    }
    assert_eq!(
        cells_in_state(&grid, Cell::Alive),
        vec![(1, 3), (2, 1), (2, 3), (3, 2), (3, 3)]
    );
    assert_eq!(
        cells_in_state(&grid, Cell::Dead),
        vec![(0, 1), (0, 2), (1, 0), (1, 1), (1, 2), (2, 2)]
    );
}

#[test]
fn dead_cells_do_not_count_as_neighbours() {
    let mut grid = Grid::new(3, 3).unwrap();
    grid.set(0, 0, Cell::Dead).unwrap();
    grid.set(1, 0, Cell::Dead).unwrap();
    grid.set(2, 0, Cell::Dead).unwrap();
    assert_eq!(grid.live_neighbors(1, 1), Ok(0));
    grid.advance();
    assert_eq!(grid.get(1, 1), Ok(Cell::Empty));
    assert_eq!(cells_in_state(&grid, Cell::Dead), vec![(0, 0), (1, 0), (2, 0)]);
}

#[test]
fn dead_cell_is_reborn_with_three_neighbours() {
    let mut grid = grid_with(3, 3, &[(0, 0), (1, 0), (2, 0)]);
    grid.set(1, 1, Cell::Dead).unwrap();
    grid.advance();
    assert_eq!(grid.get(1, 1), Ok(Cell::Alive));
}

#[test]
fn crowded_cell_dies() {
    let mut grid = grid_with(3, 3, &[(1, 1), (0, 0), (1, 0), (2, 0), (0, 1)]);
    assert_eq!(grid.live_neighbors(1, 1), Ok(4));
    grid.advance();
    assert_eq!(grid.get(1, 1), Ok(Cell::Dead));
}

#[test]
fn live_neighbors_counts_all_eight() {
    let mut grid = Grid::new(3, 3).unwrap();
    for x in 0..3 {
        for y in 0..3 {
            grid.set(x, y, Cell::Alive).unwrap();
        }
    }
    assert_eq!(grid.live_neighbors(1, 1), Ok(8));
}

#[test]
fn corner_cell_has_three_neighbours_at_most() {
    let mut grid = Grid::new(4, 4).unwrap();
    for x in 0..4 {
        for y in 0..4 {
            grid.set(x, y, Cell::Alive).unwrap();
        }
    }
    assert_eq!(grid.live_neighbors(0, 0), Ok(3));
    assert_eq!(grid.live_neighbors(3, 0), Ok(3));
    assert_eq!(grid.live_neighbors(0, 3), Ok(3));
    assert_eq!(grid.live_neighbors(3, 3), Ok(3));
}

#[test]
fn edge_cell_has_five_neighbours_at_most() {
    let mut grid = Grid::new(4, 4).unwrap();
    for x in 0..4 {
        for y in 0..4 {
            grid.set(x, y, Cell::Alive).unwrap();
        }
    }
    assert_eq!(grid.live_neighbors(1, 0), Ok(5));
    assert_eq!(grid.live_neighbors(0, 2), Ok(5));
    assert_eq!(grid.live_neighbors(3, 1), Ok(5));
    assert_eq!(grid.live_neighbors(2, 3), Ok(5));
}

#[test]
fn edges_do_not_wrap() {
    // Live cells on the right edge are no neighbours of the left edge.
    let grid = grid_with(4, 3, &[(3, 0), (3, 1), (3, 2)]);
    assert_eq!(grid.live_neighbors(0, 1), Ok(0));
    assert_eq!(grid.live_neighbors(2, 1), Ok(3));
}

#[test]
fn single_cell_grid_works() {
    let mut grid = grid_with(1, 1, &[(0, 0)]);
    assert_eq!(grid.live_neighbors(0, 0), Ok(0));
    grid.advance();
    assert_eq!(grid.get(0, 0), Ok(Cell::Dead));
}

#[test]
fn single_row_grid_works() {
    let mut grid = grid_with(5, 1, &[(1, 0), (2, 0), (3, 0)]);
    assert_eq!(grid.live_neighbors(2, 0), Ok(2));
    grid.advance();
    assert_eq!(cells_in_state(&grid, Cell::Alive), vec![(2, 0)]);
    assert_eq!(cells_in_state(&grid, Cell::Dead), vec![(1, 0), (3, 0)]);
}

#[test]
fn live_neighbors_refuses_a_coordinate_outside() {
    let grid = Grid::new(3, 3).unwrap();
    assert_eq!(grid.live_neighbors(3, 0), Err(GridError::OutOfBounds));
    assert_eq!(grid.live_neighbors(0, 3), Err(GridError::OutOfBounds));
}

#[test]
fn advance_counts_on_the_old_generation_only() {
    // Scanning in place would see (0, 1) already born when it reaches
    // (1, 1), count four neighbours there and let it die.
    let mut grid = grid_with(3, 2, &[(0, 0), (1, 0), (2, 0), (1, 1)]);
    grid.advance();
    assert_eq!(
        cells_in_state(&grid, Cell::Alive),
        vec![(0, 0), (0, 1), (1, 0), (1, 1), (2, 0), (2, 1)]
    );
}
