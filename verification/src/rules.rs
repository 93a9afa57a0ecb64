//! The cell transition rule and the mathematical model of one generation
//! step over a rectangular boolean matrix.

use vstd::prelude::*;

verus! {

/// A rectangular matrix of cells: `h` rows, each of exactly `w` cells.
pub open spec fn rect(g: Seq<Seq<bool>>, w: int, h: int) -> bool {
    &&& g.len() == h
    &&& forall|r: int| 0 <= r < g.len() ==> (#[trigger] g[r]).len() == w
}

/// Whether `(row, col)` lies inside the matrix and holds a live cell.
/// Off-grid coordinates never count as live: the grid is bounded and
/// non-wrapping.
pub open spec fn alive_at(g: Seq<Seq<bool>>, row: int, col: int) -> bool {
    &&& 0 <= row < g.len()
    &&& 0 <= col < g[row].len()
    &&& g[row][col]
}

/// The number of live cells among the eight neighbor slots of `(row, col)`:
/// slots that fall outside the grid contribute nothing.
pub open spec fn neighbor_count(g: Seq<Seq<bool>>, row: int, col: int) -> int {
    (if alive_at(g, row - 1, col - 1) { 1int } else { 0 })
        + (if alive_at(g, row - 1, col) { 1int } else { 0 })
        + (if alive_at(g, row - 1, col + 1) { 1int } else { 0 })
        + (if alive_at(g, row, col - 1) { 1int } else { 0 })
        + (if alive_at(g, row, col + 1) { 1int } else { 0 })
        + (if alive_at(g, row + 1, col - 1) { 1int } else { 0 })
        + (if alive_at(g, row + 1, col) { 1int } else { 0 })
        + (if alive_at(g, row + 1, col + 1) { 1int } else { 0 })
}

/// The B3/S23 rule: a live cell survives on 2 or 3 live neighbors, a dead
/// cell is born on exactly 3, and every other cell is dead next generation.
pub open spec fn next_state(alive: bool, neighbors: int) -> bool {
    if alive {
        neighbors == 2 || neighbors == 3
    } else {
        neighbors == 3
    }
}

/// One generation step of the whole matrix: every cell of the result is
/// `next_state` of the old cell and its old neighbor count. Dimensions are
/// preserved exactly.
pub open spec fn step(g: Seq<Seq<bool>>) -> Seq<Seq<bool>> {
    Seq::new(g.len(), |row: int| Seq::new(g[row].len(), |col: int|
        next_state(g[row][col], neighbor_count(g, row, col))))
}

/// `n` generation steps in a row.
pub open spec fn step_n(g: Seq<Seq<bool>>, n: nat) -> Seq<Seq<bool>>
    decreases n,
{
    if n == 0 {
        g
    } else {
        step(step_n(g, (n - 1) as nat))
    }
}

/// The transition rule as an executable decision table, in isolation from
/// grid iteration: only the neighbor count and the current state decide.
pub fn transition(alive: bool, neighbors: u8) -> (next: bool)
    ensures
        next == next_state(alive, neighbors as int),
{
    match neighbors {
        2 => alive,
        3 => true,
        _ => false,
    }
}

} // verus!
