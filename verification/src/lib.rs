//! A verified core for Conway's Game of Life on a rectangular toroidal grid.
//!
//! The grid stores one [`Cell`] per position in row-major order, counts the
//! eight wrapped neighbors of a position, and advances the whole board one
//! generation at a time under the classic birth/survival rule. A host drives
//! the cadence, draws the exposed buffers, and feeds edits back in; the
//! library itself never performs I/O.

pub mod cell;
pub mod rng;
pub mod rules;
pub mod universe;

pub use cell::Cell;
pub use universe::{GridError, InitialPattern, Universe};
