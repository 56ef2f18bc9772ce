//! The state of a single grid position.

use vstd::prelude::*;

verus! {

/// The binary state of one grid position. `Dead` cells count 0 and `Alive`
/// cells count 1 toward a neighborhood census.
#[derive(Clone, Copy, Debug, PartialEq, Eq, Structural)]
pub enum Cell {
    Dead,
    Alive,
}

/// The opposite state: `Dead` becomes `Alive` and `Alive` becomes `Dead`.
pub open spec fn flip(c: Cell) -> Cell {
    match c {
        Cell::Dead => Cell::Alive,
        Cell::Alive => Cell::Dead,
    }
}

impl Cell {
    /// Replace the state with its opposite.
    pub fn toggle(&mut self)
        ensures
            *final(self) == flip(*old(self)),
    {
        *self = match *self {
            Cell::Dead => Cell::Alive,
            Cell::Alive => Cell::Dead,
        };
    }

    /// Overwrite the state with `cell_state`.
    pub fn set_cell(&mut self, cell_state: Cell)
        ensures
            *final(self) == cell_state,
    {
        *self = cell_state;
    }
}

} // verus!
