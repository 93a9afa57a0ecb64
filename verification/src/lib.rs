//! Conway's Game of Life on a bounded, non-wrapping rectangular grid.
//!
//! The grid is a fixed-size boolean matrix; advancing a generation applies
//! the classical birth-on-3 / survive-on-2-or-3 rule to every cell, with
//! off-grid neighbor slots simply excluded from the count.

pub mod engine;
pub mod grid;
pub mod laws;
pub mod parse;
pub mod rules;
