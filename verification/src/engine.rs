//! The evolution engine: computes the next generation of a grid by applying
//! the transition rule to every cell, reading only the old grid and writing
//! only the new one.

use vstd::prelude::*;

use crate::grid::Grid;
use crate::rules::{neighbor_count, next_state, step, transition};

verus! {

/// Counts the live cells among the eight neighbor slots of `(row, col)`.
/// Slots that fall off the grid edge are excluded from the count, never
/// probed: edge and corner cells simply have fewer candidate neighbors.
pub fn count_live_neighbors(grid: &Grid, row: usize, col: usize) -> (count: u8)
    requires
        grid.wf(),
        row < grid.spec_height(),
        col < grid.spec_width(),
    ensures
        count as int == neighbor_count(grid@, row as int, col as int),
{
    let mut count: u8 = 0;
    if row > 0 {
        if col > 0 && grid.cell(row - 1, col - 1) {
            count += 1;
        }
        if grid.cell(row - 1, col) {
            count += 1;
        }
        if col + 1 < grid.width() && grid.cell(row - 1, col + 1) {
            count += 1;
        }
    }
    if col > 0 && grid.cell(row, col - 1) {
        count += 1;
    }
    if col + 1 < grid.width() && grid.cell(row, col + 1) {
        count += 1;
    }
    if row + 1 < grid.height() {
        if col > 0 && grid.cell(row + 1, col - 1) {
            count += 1;
        }
        if grid.cell(row + 1, col) {
            count += 1;
        }
        if col + 1 < grid.width() && grid.cell(row + 1, col + 1) {
            count += 1;
        }
    }
    count
}

/// The next-generation state of the cell at `(row, col)`: the transition
/// rule applied to its current state and its live-neighbor count.
pub fn compute_cell_state(grid: &Grid, col: usize, row: usize) -> (next: bool)
    requires
        grid.wf(),
        row < grid.spec_height(),
        col < grid.spec_width(),
    ensures
        next == next_state(
            grid@[row as int][col as int],
            neighbor_count(grid@, row as int, col as int),
        ),
{
    let alive = grid.cell(row, col);
    let neighbors = count_live_neighbors(grid, row, col);
    transition(alive, neighbors)
}

/// Computes the whole next generation: a new grid of identical dimensions
/// whose every cell is the transition rule applied to the old grid. All
/// reads go to the old grid, all writes to the new one.
pub fn next_gen(grid: &Grid) -> (next: Grid)
    requires
        grid.wf(),
    ensures
        next.wf(),
        next.spec_width() == grid.spec_width(),
        next.spec_height() == grid.spec_height(),
        next@ == step(grid@),
{
    let width = grid.width();
    let height = grid.height();
    let mut cells: Vec<Vec<bool>> = Vec::new();
    let mut row: usize = 0;
    while row < height
        invariant
            grid.wf(),
            width == grid.spec_width(),
            height == grid.spec_height(),
            row <= height,
            cells@.len() == row,
            forall|r: int| 0 <= r < row ==> (#[trigger] cells@[r])@.len() == width,
            forall|r: int, c: int|
                0 <= r < row && 0 <= c < width ==> #[trigger] cells@[r]@[c] == next_state(
                    grid@[r][c],
                    neighbor_count(grid@, r, c),
                ),
        decreases height - row,
    {
        let mut line: Vec<bool> = Vec::new();
        let mut col: usize = 0;
        while col < width
            invariant
                grid.wf(),
                width == grid.spec_width(),
                height == grid.spec_height(),
                row < height,
                col <= width,
                line@.len() == col,
                forall|c: int|
                    0 <= c < col ==> #[trigger] line@[c] == next_state(
                        grid@[row as int][c],
                        neighbor_count(grid@, row as int, c),
                    ),
            decreases width - col,
        {
            let state = compute_cell_state(grid, col, row);
            line.push(state);
            col += 1;
        }
        cells.push(line);
        row += 1;
    }
    let ghost built = cells@;
    let next = Grid::from_cells(width, height, cells);
    proof {
        assert forall|r: int| 0 <= r < height implies next@[r] =~= step(grid@)[r] by {
            assert(grid@[r].len() == width);
            assert(next@[r] == built[r]@);
            assert forall|c: int| 0 <= c < width implies next@[r][c] == step(grid@)[r][c] by {
                assert(built[r]@[c] == next_state(grid@[r][c], neighbor_count(grid@, r, c)));
            }
        }
        assert(next@ =~~= step(grid@));
    }
    next
}

impl Grid {
    /// The next generation of this grid: same dimensions, every cell set by
    /// the transition rule from its old state and old neighbor count.
    pub fn advance(&self) -> (next: Grid)
        requires
            self.wf(),
        ensures
            next.wf(),
            next.spec_width() == self.spec_width(),
            next.spec_height() == self.spec_height(),
            next@ == step(self@),
    {
        next_gen(self)
    }
}

} // verus!
