//! One position of the grid.

use vstd::prelude::*;

verus! {

/// What an occupied cell shows. It decides which textures its faces get.
#[derive(Clone, Copy, PartialEq, Eq, Debug, Hash, Structural)]
pub enum CellVariant {
    /// The leading segment of the creature.
    Head,
    /// Any other segment of the creature.
    Body,
    /// Something the creature can eat.
    Food,
}

/// The state of one grid position: whether something is there, and what.
///
/// The variant of an unoccupied cell means nothing; the library writes
/// `Body` there, as [`Cell::vacant`] does.
#[derive(Clone, Copy, PartialEq, Eq, Debug, Hash, Structural)]
pub struct Cell {
    pub occupied: bool,
    pub variant: CellVariant,
}

/// A column and a row of the grid.
#[derive(Clone, Copy, PartialEq, Eq, Debug, Hash, Structural)]
pub struct Position {
    pub x: u32,
    pub y: u32,
}

impl Cell {
    /// The cell with nothing in it.
    pub open spec fn spec_vacant() -> Cell {
        Cell { occupied: false, variant: CellVariant::Body }
    }

    /// An occupied cell of the given variant.
    pub open spec fn spec_filled(variant: CellVariant) -> Cell {
        Cell { occupied: true, variant }
    }

    /// The cell with nothing in it.
    pub fn vacant() -> (c: Cell)
        ensures
            c == Cell::spec_vacant(),
    {
        Cell { occupied: false, variant: CellVariant::Body }
    }

    /// An occupied cell of the given variant.
    pub fn filled(variant: CellVariant) -> (c: Cell)
        ensures
            c == Cell::spec_filled(variant),
    {
        Cell { occupied: true, variant }
    }
}

} // verus!
