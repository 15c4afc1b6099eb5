//! The rules by which the creature moves.
//!
//! At every tick the creature takes one step in the direction it is heading.
//! The grid has hard edges: a step that would leave it ends the game, and so
//! does a step into the creature itself. A step onto food makes the creature
//! one segment longer. Both endings leave the grid as it was, so the same
//! ending is reported again at every later tick, until someone steers the
//! creature elsewhere.

use vstd::prelude::*;
use crate::cell::{CellVariant, Position};
use crate::grid::{Grid, GridView};

verus! {

/// What a tick did.
#[derive(Clone, Copy, PartialEq, Eq, Debug, Hash, Structural)]
pub enum StepOutcome {
    /// Nothing moved: the grid has no creature, or the creature is at rest.
    Idle,
    /// The creature moved by one cell.
    Moved,
    /// The creature moved by one cell onto food, and grew by one segment.
    Grew,
    /// The creature would have left the grid. The grid is unchanged.
    OutOfBounds,
    /// The creature would have run into itself. The grid is unchanged.
    Collision,
}

impl StepOutcome {
    /// Whether the outcome ends the game.
    pub open spec fn spec_is_terminal(self) -> bool {
        self == StepOutcome::OutOfBounds || self == StepOutcome::Collision
    }

    /// Whether the outcome ends the game.
    pub fn is_terminal(self) -> (b: bool)
        ensures
            b == self.spec_is_terminal(),
    {
        match self {
            StepOutcome::OutOfBounds => true,
            StepOutcome::Collision => true,
            _ => false,
        }
    }
}

/// The column and row next to the head in the direction of the heading:
/// where the creature is about to go. It may lie outside the grid. Without a
/// creature or without a heading it means nothing.
pub open spec fn spec_target(g: GridView) -> (int, int) {
    let head = g.body[0];
    let offset = g.heading.unwrap().spec_offset();
    (head.x + offset.0, head.y + offset.2)
}

/// What the next tick will do to the grid `g`.
pub open spec fn spec_outcome(g: GridView) -> StepOutcome {
    let (x, y) = spec_target(g);
    if g.body.len() == 0 || g.heading.is_none() {
        StepOutcome::Idle
    } else if !g.in_bounds(x, y) {
        StepOutcome::OutOfBounds
    } else if !g.cell(x, y).occupied {
        StepOutcome::Moved
    } else if g.cell(x, y).variant == CellVariant::Food {
        StepOutcome::Grew
    } else {
        StepOutcome::Collision
    }
}

/// The grid `g` one tick later.
pub open spec fn spec_step(g: GridView) -> GridView {
    let (x, y) = spec_target(g);
    let target = Position { x: x as u32, y: y as u32 };
    match spec_outcome(g) {
        StepOutcome::Moved => g.spec_advance(target),
        StepOutcome::Grew => g.spec_grow(target),
        _ => g,
    }
}

/// Advances the grid by one tick and says what happened.
///
/// The result and the new grid depend on the old grid alone. An ending is
/// reported, never acted on: the grid is then left as it was.
pub fn step(grid: &mut Grid) -> (outcome: StepOutcome)
    requires
        old(grid).wf(),
    ensures
        final(grid).wf(),
        outcome == spec_outcome(old(grid)@),
        final(grid)@ == spec_step(old(grid)@),
{
    let head = match grid.head() {
        Some(position) => position,
        None => {
            return StepOutcome::Idle;
        },
    };
    let direction = match grid.heading() {
        Some(direction) => direction,
        None => {
            return StepOutcome::Idle;
        },
    };
    let (dx, _dy, dz): (i64, i64, i64) = direction.offset();
    let x: i64 = head.x as i64 + dx;
    let y: i64 = head.y as i64 + dz;
    if x < 0 || x >= grid.width() as i64 || y < 0 || y >= grid.height() as i64 {
        return StepOutcome::OutOfBounds;
    }
    let target = Position { x: x as u32, y: y as u32 };
    match grid.cell(target.x, target.y) {
        Some(cell) => {
            if !cell.occupied {
                grid.advance_to(target);
                StepOutcome::Moved
            } else {
                match cell.variant {
                    CellVariant::Food => {
                        grid.grow_to(target);
                        StepOutcome::Grew
                    },
                    _ => StepOutcome::Collision,
                }
            }
        },
        None => StepOutcome::OutOfBounds,
    }
}

/// A tick keeps the grid well-formed, and an ending changes nothing: the
/// next tick finds the same grid and reports the same ending.
pub proof fn lemma_step_keeps_wf(g: GridView)
    requires
        g.wf(),
    ensures
        spec_step(g).wf(),
        spec_outcome(g).spec_is_terminal() ==> spec_step(g) == g,
        spec_outcome(g).spec_is_terminal() ==> spec_outcome(spec_step(g)) == spec_outcome(g),
{
    let (x, y) = spec_target(g);
    let target = Position { x: x as u32, y: y as u32 };
    if spec_outcome(g) == StepOutcome::Moved {
        crate::grid_proofs::lemma_sides_bounded(g);
        crate::grid_proofs::lemma_advance_keeps_wf(g, target);
    } else if spec_outcome(g) == StepOutcome::Grew {
        crate::grid_proofs::lemma_sides_bounded(g);
        crate::grid_proofs::lemma_grow_keeps_wf(g, target);
    }
}

/// A step that moves the creature puts its head one cell further in the
/// direction it was heading and keeps the heading. Moving keeps the
/// creature's length, and every segment but the head takes the place of the
/// one before it; growing adds one segment, and no segment but the head
/// moves.
pub proof fn lemma_step_moves_head(g: GridView)
    requires
        g.wf(),
        spec_outcome(g) == StepOutcome::Moved || spec_outcome(g) == StepOutcome::Grew,
    ensures
        spec_step(g).heading == g.heading,
        spec_step(g).body[0].x == g.body[0].x + g.heading.unwrap().spec_offset().0,
        spec_step(g).body[0].y == g.body[0].y + g.heading.unwrap().spec_offset().2,
        spec_outcome(g) == StepOutcome::Moved ==> spec_step(g).body.len() == g.body.len(),
        spec_outcome(g) == StepOutcome::Grew ==> spec_step(g).body.len() == g.body.len() + 1,
        forall|i: int|
            1 <= i < spec_step(g).body.len() ==> #[trigger] spec_step(g).body[i] == g.body[i - 1],
{
    crate::grid_proofs::lemma_sides_bounded(g);
}

} // verus!
