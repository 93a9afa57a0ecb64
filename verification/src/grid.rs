//! The grid value type: a rectangular boolean matrix with fixed positive
//! dimensions, immutable once built. Evolution produces a new grid rather
//! than mutating the old one, so a generation is always computed from the
//! finished previous generation.

use vstd::prelude::*;

use crate::rules::rect;

verus! {

/// Why a grid operation failed.
#[derive(Clone, Copy, Debug, PartialEq, Eq, Structural)]
pub enum GridError {
    /// A grid was requested with zero width or zero height.
    InvalidDimension,
    /// A cell was looked up outside the grid.
    OutOfBounds,
}

/// A source of initial cell states, polled once per cell during grid
/// construction. The driver injects randomness through it; a test can
/// inject a fixed pattern instead for reproducible grids.
pub trait FillSource {
    fn next_cell(&mut self) -> bool;
}

/// Relies on rand::random::<bool>: one draw from the thread-local generator,
/// uniform over alive and dead. Nothing is promised of the value drawn.
#[verifier::external_body]
fn random_cell() -> bool {
    rand::random::<bool>()
}

/// The default fill source: every cell is drawn alive or dead, uniformly,
/// from the thread-local random number generator.
pub struct RandomFill {}

impl FillSource for RandomFill {
    fn next_cell(&mut self) -> bool {
        random_cell()
    }
}

/// A rectangular boolean matrix: `height` rows, each of exactly `width`
/// cells, both dimensions positive and fixed for the grid's lifetime.
pub struct Grid {
    width: usize,
    height: usize,
    cells: Vec<Vec<bool>>,
}

impl View for Grid {
    type V = Seq<Seq<bool>>;

    closed spec fn view(&self) -> Seq<Seq<bool>> {
        Seq::new(self.cells@.len() as nat, |row: int| self.cells@[row]@)
    }
}

impl Grid {
    /// The number of columns, as a mathematical integer.
    pub closed spec fn spec_width(&self) -> int {
        self.width as int
    }

    /// The number of rows, as a mathematical integer.
    pub closed spec fn spec_height(&self) -> int {
        self.height as int
    }

    /// The grid invariant: positive dimensions, and exactly `height` rows
    /// of exactly `width` cells each. Constructors establish it and
    /// evolution preserves it.
    pub open spec fn wf(&self) -> bool {
        &&& 0 < self.spec_width() <= usize::MAX
        &&& 0 < self.spec_height() <= usize::MAX
        &&& rect(self@, self.spec_width(), self.spec_height())
    }

    /// The number of columns.
    pub fn width(&self) -> (w: usize)
        ensures
            w == self.spec_width(),
    {
        self.width
    }

    /// The number of rows.
    pub fn height(&self) -> (h: usize)
        ensures
            h == self.spec_height(),
    {
        self.height
    }

    /// Builds a grid of the given dimensions, polling `fill` once per cell
    /// in row-major order: row 0 first, and within a row column 0 first.
    /// Zero width or height is rejected with `InvalidDimension`.
    pub fn create<F: FillSource>(width: usize, height: usize, fill: &mut F) -> (result: Result<
        Grid,
        GridError,
    >)
        ensures
            result is Ok <==> (width > 0 && height > 0),
            result matches Ok(g) ==> g.wf() && g.spec_width() == width && g.spec_height()
                == height,
            result matches Err(e) ==> e == GridError::InvalidDimension,
    {
        if width == 0 || height == 0 {
            return Err(GridError::InvalidDimension);
        }
        let mut cells: Vec<Vec<bool>> = Vec::new();
        let mut row: usize = 0;
        while row < height
            invariant
                row <= height,
                cells@.len() == row,
                forall|r: int| 0 <= r < row ==> (#[trigger] cells@[r])@.len() == width,
            decreases height - row,
        {
            let mut line: Vec<bool> = Vec::new();
            let mut col: usize = 0;
            while col < width
                invariant
                    col <= width,
                    line@.len() == col,
                decreases width - col,
            {
                line.push(fill.next_cell());
                col += 1;
            }
            cells.push(line);
            row += 1;
        }
        Ok(Grid { width, height, cells })
    }

    /// The state of one cell: `Ok(true)` for alive, `Ok(false)` for dead,
    /// `OutOfBounds` exactly when the coordinate lies outside the grid.
    pub fn get(&self, row: usize, col: usize) -> (result: Result<bool, GridError>)
        requires
            self.wf(),
        ensures
            result is Ok <==> (row < self.spec_height() && col < self.spec_width()),
            result matches Ok(alive) ==> alive == self@[row as int][col as int],
            result matches Err(e) ==> e == GridError::OutOfBounds,
    {
        if row < self.height && col < self.width {
            proof {
                assert(self@[row as int] == self.cells@[row as int]@);
                assert(self@[row as int].len() == self.spec_width());
            }
            Ok(self.cells[row][col])
        } else {
            Err(GridError::OutOfBounds)
        }
    }

    /// All rows, top to bottom, each row left to right — for rendering.
    pub fn rows(&self) -> (rows: &Vec<Vec<bool>>)
        ensures
            rows@.len() == self@.len(),
            forall|r: int| 0 <= r < self@.len() ==> (#[trigger] rows@[r])@ == self@[r],
    {
        &self.cells
    }

    /// The state of one in-bounds cell, for the evolution engine, which
    /// only ever probes coordinates it has already bounds-checked.
    pub(crate) fn cell(&self, row: usize, col: usize) -> (alive: bool)
        requires
            self.wf(),
            row < self.spec_height(),
            col < self.spec_width(),
        ensures
            alive == self@[row as int][col as int],
    {
        proof {
            assert(self@[row as int] == self.cells@[row as int]@);
            assert(self@[row as int].len() == self.spec_width());
        }
        self.cells[row][col]
    }

    /// Assembles a grid from parts that already satisfy the invariant;
    /// the evolution engine builds the next generation through this.
    pub(crate) fn from_cells(width: usize, height: usize, cells: Vec<Vec<bool>>) -> (g: Grid)
        requires
            width > 0,
            height > 0,
            cells@.len() == height,
            forall|r: int| 0 <= r < cells@.len() ==> (#[trigger] cells@[r])@.len() == width,
        ensures
            g.wf(),
            g.spec_width() == width,
            g.spec_height() == height,
            g@.len() == cells@.len(),
            forall|r: int| 0 <= r < cells@.len() ==> g@[r] == (#[trigger] cells@[r])@,
    {
        Grid { width, height, cells }
    }
}

/// Builds a randomly seeded starting grid: every cell drawn from the
/// thread-local generator. Zero width or height is rejected with
/// `InvalidDimension`.
pub fn build_grid(ncols: usize, nrows: usize) -> (result: Result<Grid, GridError>)
    ensures
        result is Ok <==> (ncols > 0 && nrows > 0),
        result matches Ok(g) ==> g.wf() && g.spec_width() == ncols && g.spec_height() == nrows,
        result matches Err(e) ==> e == GridError::InvalidDimension,
{
    let mut fill = RandomFill {};
    Grid::create(ncols, nrows, &mut fill)
}

} // verus!
