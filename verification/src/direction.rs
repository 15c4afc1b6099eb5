//! The six directions in which a cube has a face.

use vstd::prelude::*;

verus! {

/// An axis-aligned unit direction in world space.
///
/// The x axis points east, the y axis up and the z axis south. A cell in
/// column `x` and row `y` of the grid sits at world position `(x, 0, y)`, so
/// rows grow southwards and the grid is a single layer thick.
///
/// The variants are listed in the order in which the faces of a cell are
/// visited: [`Direction::index`] gives each its place in that order.
#[derive(Clone, Copy, PartialEq, Eq, Debug, Hash, Structural)]
pub enum Direction {
    Up,
    Down,
    North,
    South,
    East,
    West,
}

/// How many directions there are.
pub const DIRECTION_COUNT: usize = 6;

impl Direction {
    /// The unit vector of this direction, as `(x, y, z)`.
    pub open spec fn spec_offset(self) -> (int, int, int) {
        match self {
            Direction::Up => (0, 1, 0),
            Direction::Down => (0, -1, 0),
            Direction::North => (0, 0, -1),
            Direction::South => (0, 0, 1),
            Direction::East => (1, 0, 0),
            Direction::West => (-1, 0, 0),
        }
    }

    /// The place of this direction in the enumeration order.
    pub open spec fn spec_index(self) -> int {
        match self {
            Direction::Up => 0,
            Direction::Down => 1,
            Direction::North => 2,
            Direction::South => 3,
            Direction::East => 4,
            Direction::West => 5,
        }
    }

    /// The direction at place `i` of the enumeration order. Outside
    /// `0..6` the result is `West`, and means nothing.
    pub open spec fn spec_from_index(i: int) -> Direction {
        if i == 0 {
            Direction::Up
        } else if i == 1 {
            Direction::Down
        } else if i == 2 {
            Direction::North
        } else if i == 3 {
            Direction::South
        } else if i == 4 {
            Direction::East
        } else {
            Direction::West
        }
    }

    /// The direction that points the other way.
    pub open spec fn spec_opposite(self) -> Direction {
        match self {
            Direction::Up => Direction::Down,
            Direction::Down => Direction::Up,
            Direction::North => Direction::South,
            Direction::South => Direction::North,
            Direction::East => Direction::West,
            Direction::West => Direction::East,
        }
    }

    /// Whether this direction stays inside the layer of the grid.
    pub open spec fn spec_is_horizontal(self) -> bool {
        self.spec_offset().1 == 0
    }

    /// The unit vector of this direction, as `(x, y, z)`.
    pub fn offset(self) -> (r: (i64, i64, i64))
        ensures
            (r.0 as int, r.1 as int, r.2 as int) == self.spec_offset(),
    {
        match self {
            Direction::Up => (0, 1, 0),
            Direction::Down => (0, -1, 0),
            Direction::North => (0, 0, -1),
            Direction::South => (0, 0, 1),
            Direction::East => (1, 0, 0),
            Direction::West => (-1, 0, 0),
        }
    }

    /// The place of this direction in the enumeration order, from 0 to 5.
    pub fn index(self) -> (i: usize)
        ensures
            i == self.spec_index(),
            i < DIRECTION_COUNT,
    {
        match self {
            Direction::Up => 0,
            Direction::Down => 1,
            Direction::North => 2,
            Direction::South => 3,
            Direction::East => 4,
            Direction::West => 5,
        }
    }

    /// The direction at place `i` of the enumeration order, if there is one.
    pub fn from_index(i: usize) -> (d: Option<Direction>)
        ensures
            i < DIRECTION_COUNT ==> d == Some(Direction::spec_from_index(i as int)),
            i >= DIRECTION_COUNT ==> d.is_none(),
    {
        if i == 0 {
            Some(Direction::Up)
        } else if i == 1 {
            Some(Direction::Down)
        } else if i == 2 {
            Some(Direction::North)
        } else if i == 3 {
            Some(Direction::South)
        } else if i == 4 {
            Some(Direction::East)
        } else if i == 5 {
            Some(Direction::West)
        } else {
            None
        }
    }

    /// The direction that points the other way.
    pub fn opposite(self) -> (d: Direction)
        ensures
            d == self.spec_opposite(),
    {
        match self {
            Direction::Up => Direction::Down,
            Direction::Down => Direction::Up,
            Direction::North => Direction::South,
            Direction::South => Direction::North,
            Direction::East => Direction::West,
            Direction::West => Direction::East,
        }
    }

    /// Whether this direction stays inside the layer of the grid, that is,
    /// whether it is neither `Up` nor `Down`.
    pub fn is_horizontal(self) -> (b: bool)
        ensures
            b == self.spec_is_horizontal(),
    {
        match self {
            Direction::Up => false,
            Direction::Down => false,
            _ => true,
        }
    }
}

/// The enumeration order counts every direction once: `index` and
/// `from_index` undo each other.
pub proof fn lemma_index_round_trip(d: Direction, i: int)
    ensures
        0 <= d.spec_index() < 6,
        Direction::spec_from_index(d.spec_index()) == d,
        0 <= i < 6 ==> Direction::spec_from_index(i).spec_index() == i,
{
}

/// Opposite directions have opposite unit vectors, and the opposite of the
/// opposite is the direction itself.
pub proof fn lemma_opposite(d: Direction)
    ensures
        d.spec_opposite().spec_opposite() == d,
        d.spec_opposite().spec_offset().0 == -d.spec_offset().0,
        d.spec_opposite().spec_offset().1 == -d.spec_offset().1,
        d.spec_opposite().spec_offset().2 == -d.spec_offset().2,
        d.spec_opposite().spec_is_horizontal() == d.spec_is_horizontal(),
{
}

} // verus!
