//! The tiles of the texture atlas, and which face of which cell shows which.

use vstd::prelude::*;
use crate::cell::CellVariant;
use crate::direction::Direction;

verus! {

/// The atlas is a square of this many tiles by this many tiles. Every
/// texture coordinate that the library emits counts tiles, so dividing by
/// this number gives the normalised coordinate.
pub const ATLAS_TILES: u32 = 4;

/// A rectangle of the atlas, in tiles: `u` runs along the columns and `v`
/// along the rows.
#[derive(Clone, Copy, PartialEq, Eq, Debug, Hash, Structural)]
pub struct AtlasRect {
    pub u_min: u32,
    pub v_min: u32,
    pub u_max: u32,
    pub v_max: u32,
}

/// A tile of the atlas, named after the face that shows it.
#[derive(Clone, Copy, PartialEq, Eq, Debug, Hash, Structural)]
pub enum BlockFace {
    HeadTop,
    HeadSide,
    HeadBottom,
    BodyTop,
    BodySide,
    BodyBottom,
    Food,
}

impl AtlasRect {
    /// A rectangle has a positive extent both ways and lies inside the atlas.
    pub open spec fn wf(self) -> bool {
        &&& self.u_min < self.u_max <= ATLAS_TILES
        &&& self.v_min < self.v_max <= ATLAS_TILES
    }

    /// Whether two rectangles have a point of their interiors in common.
    pub open spec fn overlaps(self, other: AtlasRect) -> bool {
        &&& self.u_min < other.u_max
        &&& other.u_min < self.u_max
        &&& self.v_min < other.v_max
        &&& other.v_min < self.v_max
    }
}

impl BlockFace {
    /// The tile that the face `direction` of a cell of the given variant
    /// shows. The head and the body have a top, a bottom and four equal
    /// sides; food looks the same from everywhere.
    pub open spec fn spec_select(variant: CellVariant, direction: Direction) -> BlockFace {
        match variant {
            CellVariant::Head => match direction {
                Direction::Up => BlockFace::HeadTop,
                Direction::Down => BlockFace::HeadBottom,
                _ => BlockFace::HeadSide,
            },
            CellVariant::Body => match direction {
                Direction::Up => BlockFace::BodyTop,
                Direction::Down => BlockFace::BodyBottom,
                _ => BlockFace::BodySide,
            },
            CellVariant::Food => BlockFace::Food,
        }
    }

    /// The column of the atlas in which this tile lies.
    pub open spec fn spec_column(self) -> int {
        match self {
            BlockFace::HeadTop => 0,
            BlockFace::HeadSide => 1,
            BlockFace::HeadBottom => 2,
            BlockFace::BodyTop => 0,
            BlockFace::BodySide => 1,
            BlockFace::BodyBottom => 2,
            BlockFace::Food => 0,
        }
    }

    /// The row of the atlas in which this tile lies.
    pub open spec fn spec_row(self) -> int {
        match self {
            BlockFace::HeadTop => 0,
            BlockFace::HeadSide => 0,
            BlockFace::HeadBottom => 0,
            BlockFace::BodyTop => 1,
            BlockFace::BodySide => 1,
            BlockFace::BodyBottom => 1,
            BlockFace::Food => 2,
        }
    }

    /// The rectangle of this tile: one tile wide and one tile high, at the
    /// tile's column and row.
    pub open spec fn spec_rect(self) -> AtlasRect {
        AtlasRect {
            u_min: self.spec_column() as u32,
            v_min: self.spec_row() as u32,
            u_max: (self.spec_column() + 1) as u32,
            v_max: (self.spec_row() + 1) as u32,
        }
    }

    /// The tile that the face `direction` of a cell of the given variant
    /// shows. Every pair has a tile: the match below leaves none out.
    pub fn select(variant: CellVariant, direction: Direction) -> (face: BlockFace)
        ensures
            face == BlockFace::spec_select(variant, direction),
    {
        match variant {
            CellVariant::Head => match direction {
                Direction::Up => BlockFace::HeadTop,
                Direction::Down => BlockFace::HeadBottom,
                _ => BlockFace::HeadSide,
            },
            CellVariant::Body => match direction {
                Direction::Up => BlockFace::BodyTop,
                Direction::Down => BlockFace::BodyBottom,
                _ => BlockFace::BodySide,
            },
            CellVariant::Food => BlockFace::Food,
        }
    }

    /// The rectangle of the atlas that holds this tile.
    pub fn rect(self) -> (r: AtlasRect)
        ensures
            r == self.spec_rect(),
            r.wf(),
    {
        let (column, row): (u32, u32) = match self {
            BlockFace::HeadTop => (0, 0),
            BlockFace::HeadSide => (1, 0),
            BlockFace::HeadBottom => (2, 0),
            BlockFace::BodyTop => (0, 1),
            BlockFace::BodySide => (1, 1),
            BlockFace::BodyBottom => (2, 1),
            BlockFace::Food => (0, 2),
        };
        AtlasRect { u_min: column, v_min: row, u_max: column + 1, v_max: row + 1 }
    }
}

/// Every tile has a rectangle inside the atlas, and no two tiles share any
/// of it.
pub proof fn lemma_tiles_are_disjoint(a: BlockFace, b: BlockFace)
    ensures
        a.spec_rect().wf(),
        a != b ==> !a.spec_rect().overlaps(b.spec_rect()),
{
}

} // verus!
