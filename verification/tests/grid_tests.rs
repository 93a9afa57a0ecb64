use game_of_life::grid::{build_grid, FillSource, Grid, GridError};
use game_of_life::parse::arg_to_isize;

/// A deterministic fill source: hands out a fixed pattern of cells, one per
/// call, and panics if polled more often than the pattern has cells.
struct PatternFill {
    cells: Vec<bool>,
    next: usize,
}

impl PatternFill {
    fn new(cells: Vec<bool>) -> PatternFill {
        PatternFill { cells, next: 0 }
    }
}

impl FillSource for PatternFill {
    fn next_cell(&mut self) -> bool {
        let state = self.cells[self.next];
        self.next += 1;
        state
    }
}

/// An all-dead fill source.
struct DeadFill {}

impl FillSource for DeadFill {
    fn next_cell(&mut self) -> bool {
        false
    }
}

#[test]
fn create_zero_width_fails() {
    let mut fill = DeadFill {};
    let result = Grid::create(0, 5, &mut fill);
    assert_eq!(result.err(), Some(GridError::InvalidDimension));
}

#[test]
fn create_zero_height_fails() {
    let mut fill = DeadFill {};
    let result = Grid::create(5, 0, &mut fill);
    assert_eq!(result.err(), Some(GridError::InvalidDimension));
}

#[test]
fn create_reports_dimensions() {
    let mut fill = DeadFill {};
    let grid = Grid::create(7, 3, &mut fill).unwrap();
    assert_eq!(grid.width(), 7);
    assert_eq!(grid.height(), 3);
}

#[test]
fn create_fills_row_major() {
    let pattern = vec![true, false, true, false, true, false];
    let mut fill = PatternFill::new(pattern.clone());
    let grid = Grid::create(3, 2, &mut fill).unwrap();
    for row in 0..2 {
        for col in 0..3 {
            assert_eq!(grid.get(row, col).unwrap(), pattern[row * 3 + col]);
        }
    }
}

#[test]
fn create_polls_fill_once_per_cell() {
    // PatternFill panics on a seventh call: exactly six cells, six polls.
    let mut fill = PatternFill::new(vec![false; 6]);
    let grid = Grid::create(2, 3, &mut fill).unwrap();
    assert_eq!(grid.width(), 2);
    assert_eq!(grid.height(), 3);
    assert_eq!(fill.next, 6);
}

#[test]
fn get_out_of_bounds_fails() {
    let mut fill = DeadFill {};
    let grid = Grid::create(4, 2, &mut fill).unwrap();
    assert_eq!(grid.get(2, 0).err(), Some(GridError::OutOfBounds));
    assert_eq!(grid.get(0, 4).err(), Some(GridError::OutOfBounds));
    assert_eq!(grid.get(9, 9).err(), Some(GridError::OutOfBounds));
    assert!(grid.get(1, 3).is_ok());
}

#[test]
fn rows_match_get() {
    let pattern = vec![true, false, false, true, true, false];
    let mut fill = PatternFill::new(pattern);
    let grid = Grid::create(2, 3, &mut fill).unwrap();
    let rows = grid.rows();
    assert_eq!(rows.len(), 3);
    for (r, row) in rows.iter().enumerate() {
        assert_eq!(row.len(), 2);
        for (c, cell) in row.iter().enumerate() {
            assert_eq!(*cell, grid.get(r, c).unwrap());
        }
    }
}

#[test]
fn build_grid_rejects_zero_dimensions() {
    assert_eq!(build_grid(0, 5).err(), Some(GridError::InvalidDimension));
    assert_eq!(build_grid(5, 0).err(), Some(GridError::InvalidDimension));
}

#[test]
fn build_grid_has_requested_dimensions() {
    let grid = build_grid(6, 4).unwrap();
    assert_eq!(grid.width(), 6);
    assert_eq!(grid.height(), 4);
    // every cell is readable, whatever the random seed filled in
    for row in 0..4 {
        for col in 0..6 {
            assert!(grid.get(row, col).is_ok());
        }
    }
}

#[test]
fn parse_plain_number() {
    assert_eq!(arg_to_isize(&String::from("5")), Some(5));
    assert_eq!(arg_to_isize(&String::from("0")), Some(0));
    assert_eq!(arg_to_isize(&String::from("120")), Some(120));
}

#[test]
fn parse_keeps_leading_zeros_value() {
    assert_eq!(arg_to_isize(&String::from("007")), Some(7));
}

#[test]
fn parse_rejects_empty_and_stray_text() {
    assert_eq!(arg_to_isize(&String::from("")), None);
    assert_eq!(arg_to_isize(&String::from("abc")), None);
    assert_eq!(arg_to_isize(&String::from("12x")), None);
    assert_eq!(arg_to_isize(&String::from(" 12")), None);
}

#[test]
fn parse_rejects_signs() {
    assert_eq!(arg_to_isize(&String::from("-3")), None);
    assert_eq!(arg_to_isize(&String::from("+5")), None);
}

#[test]
fn parse_bounds() {
    assert_eq!(
        arg_to_isize(&String::from("9223372036854775807")),
        Some(isize::MAX)
    );
    assert_eq!(arg_to_isize(&String::from("9223372036854775808")), None);
    assert_eq!(arg_to_isize(&String::from("99999999999999999999999")), None);
}
