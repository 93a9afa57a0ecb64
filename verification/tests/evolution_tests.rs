use game_of_life::engine::{compute_cell_state, count_live_neighbors, next_gen};
use game_of_life::grid::{FillSource, Grid};
use game_of_life::rules::transition;

/// A fill source that hands out a fixed list of cells, one per call.
struct ListFill {
    cells: Vec<bool>,
    next: usize,
}

impl FillSource for ListFill {
    fn next_cell(&mut self) -> bool {
        let state = self.cells[self.next];
        self.next += 1;
        state
    }
}

/// Builds a grid that is dead everywhere except the given (row, col) cells.
fn grid_with_live(width: usize, height: usize, live: &[(usize, usize)]) -> Grid {
    let mut cells = vec![false; width * height];
    for &(r, c) in live {
        cells[r * width + c] = true;
    }
    let mut fill = ListFill { cells, next: 0 };
    Grid::create(width, height, &mut fill).unwrap()
}

/// All live cells of a grid, in row-major order.
fn live_set(grid: &Grid) -> Vec<(usize, usize)> {
    let mut live = Vec::new();
    for r in 0..grid.height() {
        for c in 0..grid.width() {
            if grid.get(r, c).unwrap() {
                live.push((r, c));
            }
        }
    }
    live
}

#[test]
fn transition_decision_table() {
    for neighbors in 0..=8u8 {
        let survives = neighbors == 2 || neighbors == 3;
        let born = neighbors == 3;
        assert_eq!(transition(true, neighbors), survives);
        assert_eq!(transition(false, neighbors), born);
    }
}

#[test]
fn all_dead_one_by_one_stays_dead() {
    let grid = grid_with_live(1, 1, &[]);
    let next = grid.advance();
    assert_eq!(live_set(&next), vec![]);
    assert_eq!(next.width(), 1);
    assert_eq!(next.height(), 1);
}

#[test]
fn all_dead_grid_stays_dead() {
    let grid = grid_with_live(3, 4, &[]);
    let next = next_gen(&grid);
    assert_eq!(live_set(&next), vec![]);
}

#[test]
fn advance_preserves_dimensions() {
    let grid = grid_with_live(7, 3, &[(0, 0), (1, 5), (2, 6)]);
    let next = grid.advance();
    assert_eq!(next.width(), 7);
    assert_eq!(next.height(), 3);
}

#[test]
fn block_is_still_life() {
    let start: Vec<(usize, usize)> = vec![(1, 1), (1, 2), (2, 1), (2, 2)];
    let mut grid = grid_with_live(4, 4, &start);
    for _ in 0..5 {
        grid = grid.advance();
        assert_eq!(live_set(&grid), start);
    }
}

#[test]
fn block_in_grid_corner_is_still_life() {
    // the block touches both edges: the off-grid slots stay excluded
    let start: Vec<(usize, usize)> = vec![(0, 0), (0, 1), (1, 0), (1, 1)];
    let mut grid = grid_with_live(3, 3, &start);
    for _ in 0..3 {
        grid = grid.advance();
        assert_eq!(live_set(&grid), start);
    }
}

#[test]
fn blinker_oscillates_with_period_two() {
    let horizontal: Vec<(usize, usize)> = vec![(2, 1), (2, 2), (2, 3)];
    let vertical: Vec<(usize, usize)> = vec![(1, 2), (2, 2), (3, 2)];
    let grid = grid_with_live(5, 5, &horizontal);
    let once = grid.advance();
    assert_eq!(live_set(&once), vertical);
    let twice = once.advance();
    assert_eq!(live_set(&twice), horizontal);
}

#[test]
fn glider_translates_down_right_in_four_steps() {
    // the standard glider seeded in the 3x3 box with top-left corner (2, 2)
    let seeded: Vec<(usize, usize)> = vec![(2, 3), (3, 4), (4, 2), (4, 3), (4, 4)];
    // the same shape one row down and one column right
    let translated: Vec<(usize, usize)> = vec![(3, 4), (4, 5), (5, 3), (5, 4), (5, 5)];
    let mut grid = grid_with_live(10, 10, &seeded);
    for _ in 0..4 {
        grid = grid.advance();
    }
    assert_eq!(live_set(&grid), translated);
}

#[test]
fn corner_count_excludes_off_grid_slots() {
    // all three in-grid neighbor slots of the corner are live: the count
    // is 3, not more, although eight slots surround an interior cell
    let grid = grid_with_live(3, 3, &[(0, 1), (1, 0), (1, 1)]);
    assert_eq!(count_live_neighbors(&grid, 0, 0), 3);
    // an interior cell surrounded by live cells counts all eight
    let full = grid_with_live(3, 3, &[
        (0, 0),
        (0, 1),
        (0, 2),
        (1, 0),
        (1, 2),
        (2, 0),
        (2, 1),
        (2, 2),
    ]);
    assert_eq!(count_live_neighbors(&full, 1, 1), 8);
}

#[test]
fn lone_corner_cell_dies() {
    let grid = grid_with_live(4, 4, &[(0, 0)]);
    assert_eq!(count_live_neighbors(&grid, 0, 0), 0);
    let next = grid.advance();
    assert_eq!(live_set(&next), vec![]);
}

#[test]
fn compute_cell_state_applies_rule() {
    // a dead cell with exactly three live neighbors is born
    let grid = grid_with_live(3, 3, &[(0, 1), (1, 0), (1, 1)]);
    assert!(compute_cell_state(&grid, 0, 0));
    // a live cell with one live neighbor dies
    let lonely = grid_with_live(3, 3, &[(1, 1), (0, 0)]);
    assert!(!compute_cell_state(&lonely, 1, 1));
    // a live cell with two live neighbors survives
    let pair = grid_with_live(3, 3, &[(1, 1), (0, 0), (2, 2)]);
    assert!(compute_cell_state(&pair, 1, 1));
    // the coordinate order is (grid, column, row): the probed cell here is
    // row 1, column 3 of a wide, shallow grid
    let wide = grid_with_live(4, 2, &[(1, 3), (0, 2), (0, 3)]);
    assert!(compute_cell_state(&wide, 3, 1));
}

#[test]
fn full_three_by_three_keeps_only_corners_then_dies() {
    let all: Vec<(usize, usize)> = (0..3)
        .flat_map(|r| (0..3).map(move |c| (r, c)))
        .collect();
    let grid = grid_with_live(3, 3, &all);
    let once = grid.advance();
    assert_eq!(live_set(&once), vec![(0, 0), (0, 2), (2, 0), (2, 2)]);
    let twice = once.advance();
    assert_eq!(live_set(&twice), vec![]);
}
