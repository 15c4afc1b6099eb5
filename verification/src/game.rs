//! A grid together with the vertex buffer that shows it.

use vstd::prelude::*;
use crate::direction::Direction;
use crate::grid::{ConfigError, Grid, GridView, MAX_CELLS};
use crate::grid_proofs::{lemma_index_in_range, lemma_index_injective};
use crate::mesh::{as_ints, build, spec_mesh};
use crate::mesh_proofs::{lemma_lone_cell_shows_six_faces, lemma_mesh_is_determined_by_cells};
use crate::simulator::{spec_outcome, spec_step, step, StepOutcome};

verus! {

/// A game: the grid, and the vertex buffer that a renderer draws.
///
/// A new game has an empty buffer. From the first tick on the buffer is the
/// mesh of the grid as it stands, at every moment at which a caller can look.
#[derive(PartialEq, Eq, Debug)]
pub struct Game {
    grid: Grid,
    vertices: Vec<i64>,
    ticked: bool,
}

/// What a [`Game`] holds, as mathematical values.
pub struct GameView {
    pub grid: GridView,
    pub vertices: Seq<int>,
    pub ticked: bool,
}

impl GameView {
    /// The grid is well-formed, and the buffer is empty before the first
    /// tick and the mesh of the grid after it.
    pub open spec fn wf(self) -> bool {
        &&& self.grid.wf()
        &&& self.vertices == if self.ticked {
            spec_mesh(self.grid)
        } else {
            Seq::empty()
        }
    }

    /// The game at its start on a grid of the given size.
    pub open spec fn spec_initial(width: nat, height: nat) -> GameView {
        GameView {
            grid: GridView::spec_initial(width, height),
            vertices: Seq::empty(),
            ticked: false,
        }
    }
}

impl View for Game {
    type V = GameView;

    closed spec fn view(&self) -> GameView {
        GameView { grid: self.grid@, vertices: as_ints(self.vertices@), ticked: self.ticked }
    }
}

impl Clone for Game {
    /// A game that holds what this one holds.
    fn clone(&self) -> (copy: Game)
        ensures
            copy@ == self@,
    {
        let copy = Game {
            grid: self.grid.clone(),
            vertices: self.vertices.clone(),
            ticked: self.ticked,
        };
        assert(copy.vertices@ =~= self.vertices@);
        copy
    }
}

impl Game {
    /// Everything that holds of a game at all times.
    pub open spec fn wf(&self) -> bool {
        self@.wf()
    }

    /// A game on a grid of the given size, or the reason why there is no
    /// such grid. The creature waits at its starting position, and the
    /// vertex buffer is empty until the first tick.
    pub fn new(width: u32, height: u32) -> (r: Result<Game, ConfigError>)
        ensures
            match r {
                Ok(game) => {
                    &&& game.wf()
                    &&& game@ == GameView::spec_initial(width as nat, height as nat)
                    &&& width > 0 && height > 0 && width * height <= MAX_CELLS
                },
                Err(ConfigError::ZeroDimension) => width == 0 || height == 0,
                Err(ConfigError::TooLarge) => width > 0 && height > 0 && width * height
                    > MAX_CELLS,
            },
    {
        match Grid::new(width, height) {
            Ok(grid) => {
                let game = Game { grid, vertices: Vec::new(), ticked: false };
                assert(game@.vertices =~= Seq::empty());
                Ok(game)
            },
            Err(e) => Err(e),
        }
    }

    /// Advances the game by one tick: the grid takes a step, and the vertex
    /// buffer is rebuilt from the grid as the step left it, whatever the
    /// step did. The result says what the step did.
    pub fn update(&mut self) -> (outcome: StepOutcome)
        requires
            old(self).wf(),
        ensures
            final(self).wf(),
            outcome == spec_outcome(old(self)@.grid),
            final(self)@.grid == spec_step(old(self)@.grid),
            final(self)@.vertices == spec_mesh(final(self)@.grid),
            final(self)@.ticked,
    {
        let outcome = step(&mut self.grid);
        self.vertices = build(&self.grid);
        self.ticked = true;
        outcome
    }

    /// The vertex buffer: five numbers to a vertex, three vertices to a
    /// triangle.
    pub fn vertices(&self) -> (buffer: &Vec<i64>)
        ensures
            as_ints(buffer@) == self@.vertices,
    {
        &self.vertices
    }

    /// The grid.
    pub fn grid(&self) -> (grid: &Grid)
        ensures
            grid@ == self@.grid,
    {
        &self.grid
    }

    /// Whether the game has had its first tick.
    pub fn has_ticked(&self) -> (b: bool)
        ensures
            b == self@.ticked,
    {
        self.ticked
    }

    /// Tells the creature to head towards `direction` from the next tick on.
    /// `Up` and `Down` are refused, and the result says so. The vertex
    /// buffer stays as it is: no cell has changed.
    pub fn steer(&mut self, direction: Direction) -> (accepted: bool)
        requires
            old(self).wf(),
        ensures
            final(self).wf(),
            final(self)@.grid == old(self)@.grid.spec_steer(direction),
            final(self)@.vertices == old(self)@.vertices,
            final(self)@.ticked == old(self)@.ticked,
            accepted == direction.spec_is_horizontal(),
    {
        let accepted = self.grid.steer(direction);
        proof {
            lemma_mesh_is_determined_by_cells(old(self)@.grid, self@.grid);
        }
        accepted
    }

    /// Puts food in column `x` and row `y`. Where the grid has no such cell,
    /// or the cell is occupied, nothing changes, and the result says so.
    /// Once the game has had its first tick, the vertex buffer shows the
    /// food at once.
    pub fn place_food(&mut self, x: u32, y: u32) -> (placed: bool)
        requires
            old(self).wf(),
        ensures
            final(self).wf(),
            final(self)@.grid == old(self)@.grid.spec_place_food(x as int, y as int),
            final(self)@.ticked == old(self)@.ticked,
            placed == old(self)@.grid.spec_takes_food(x as int, y as int),
    {
        let placed = self.grid.place_food(x, y);
        if placed && self.ticked {
            self.vertices = build(&self.grid);
        }
        placed
    }
}

/// The first tick of every game finds the creature at rest: it leaves the
/// grid as it was made, with the head at the starting position as its only
/// occupied cell, and the buffer then holds the six faces of that cell.
pub proof fn lemma_first_tick(width: nat, height: nat)
    requires
        0 < width,
        0 < height,
        width * height <= MAX_CELLS,
    ensures
        spec_outcome(GridView::spec_initial(width, height)) == StepOutcome::Idle,
        spec_step(GridView::spec_initial(width, height)) == GridView::spec_initial(width, height),
        forall|x: int, y: int| #[trigger]
            GridView::spec_initial(width, height).occupied(x, y) <==> x == width / 2 && y
                == height / 2,
        spec_mesh(GridView::spec_initial(width, height)).len() == 180,
{
    let g = GridView::spec_initial(width, height);
    let sx = (width / 2) as int;
    let sy = (height / 2) as int;
    assert(width <= width * height && height <= width * height) by (nonlinear_arith)
        requires
            0 < width,
            0 < height,
    ;
    lemma_index_in_range(width, height, sx, sy);
    assert(g.occupied(sx, sy));
    assert forall|x: int, y: int| #[trigger] g.occupied(x, y) implies x == sx && y == sy by {
        lemma_index_in_range(width, height, x, y);
        if g.index(x, y) == g.index(sx, sy) {
            lemma_index_injective(width, x, y, sx, sy);
        }
    }
    lemma_lone_cell_shows_six_faces(g, sx, sy);
}

} // verus!
