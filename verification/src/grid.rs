//! The grid: a rectangle of cells, the creature that lives on it, and the
//! way the creature is heading.

use std::collections::VecDeque;
use vstd::prelude::*;
use crate::cell::{Cell, CellVariant, Position};
use crate::direction::Direction;
use crate::grid_proofs::{
    lemma_advance_keeps_wf, lemma_grow_keeps_wf, lemma_index_in_range, lemma_index_injective,
    lemma_place_food_keeps_wf, lemma_steer_keeps_wf,
};

verus! {

/// The most cells a grid may have. Within this limit the cells can be
/// addressed on every machine, and every coordinate of a vertex is a whole
/// number that a 32-bit float holds exactly.
pub const MAX_CELLS: usize = 0x100_0000;

/// Why a grid of the requested size cannot be made.
#[derive(Clone, Copy, PartialEq, Eq, Debug, Hash, Structural)]
pub enum ConfigError {
    /// The width or the height is zero.
    ZeroDimension,
    /// The grid would have more than [`MAX_CELLS`] cells.
    TooLarge,
}

/// A grid of cells in row-major order, with the creature on it.
///
/// The cell in column `x` and row `y` is `cells[y * width + x]`. `body` lists
/// the positions of the creature's segments from the head to the tail, and is
/// empty where the grid has no creature. `heading` is where the creature
/// will move at the next tick; a creature without a heading rests.
#[derive(PartialEq, Eq, Debug)]
pub struct Grid {
    width: u32,
    height: u32,
    cells: Vec<Cell>,
    body: VecDeque<Position>,
    heading: Option<Direction>,
}

/// What a [`Grid`] holds, as mathematical values.
pub struct GridView {
    pub width: nat,
    pub height: nat,
    pub cells: Seq<Cell>,
    pub body: Seq<Position>,
    pub heading: Option<Direction>,
}

impl GridView {
    /// Whether column `x` and row `y` name a cell of the grid.
    pub open spec fn in_bounds(self, x: int, y: int) -> bool {
        0 <= x < self.width && 0 <= y < self.height
    }

    /// The place of the cell in column `x` and row `y` among the cells.
    pub open spec fn index(self, x: int, y: int) -> int {
        y * self.width + x
    }

    /// The cell in column `x` and row `y`.
    pub open spec fn cell(self, x: int, y: int) -> Cell {
        self.cells[self.index(x, y)]
    }

    /// Whether there is an occupied cell in column `x` and row `y`. Outside
    /// the grid there is none.
    pub open spec fn occupied(self, x: int, y: int) -> bool {
        self.in_bounds(x, y) && self.cell(x, y).occupied
    }

    /// Whether the position names a cell of the grid.
    pub open spec fn holds(self, p: Position) -> bool {
        self.in_bounds(p.x as int, p.y as int)
    }

    /// The cell at a position.
    pub open spec fn at(self, p: Position) -> Cell {
        self.cell(p.x as int, p.y as int)
    }

    /// The place among the cells of the cell at a position.
    pub open spec fn place(self, p: Position) -> int {
        self.index(p.x as int, p.y as int)
    }

    /// There is a cell for every column and row, and no more cells than
    /// [`MAX_CELLS`].
    pub open spec fn dims_ok(self) -> bool {
        &&& 0 < self.width
        &&& 0 < self.height
        &&& self.cells.len() == self.width * self.height
        &&& self.cells.len() <= MAX_CELLS
    }

    /// The cells and the creature agree: the segments lie on the grid, no two
    /// in one place; the first is shown as the head and the others as body;
    /// and whatever else is occupied is food. The heading, if there is one,
    /// stays inside the layer.
    pub open spec fn creature_ok(self) -> bool {
        &&& forall|i: int| 0 <= i < self.body.len() ==> self.holds(#[trigger] self.body[i])
        &&& forall|i: int, j: int|
            0 <= i < j < self.body.len() ==> #[trigger] self.body[i] != #[trigger] self.body[j]
        &&& forall|i: int|
            0 <= i < self.body.len() ==> self.at(#[trigger] self.body[i]) == Cell::spec_filled(
                if i == 0 {
                    CellVariant::Head
                } else {
                    CellVariant::Body
                },
            )
        &&& forall|x: int, y: int|
            self.in_bounds(x, y) && (#[trigger] self.cell(x, y)).occupied && self.cell(
                x,
                y,
            ).variant != CellVariant::Food ==> self.body.contains(
                Position { x: x as u32, y: y as u32 },
            )
        &&& self.heading matches Some(d) ==> d.spec_is_horizontal()
    }

    /// Everything that holds of the grid at all times.
    pub open spec fn wf(self) -> bool {
        self.dims_ok() && self.creature_ok()
    }

    /// The grid of the given size with nothing on it.
    pub open spec fn spec_empty(width: nat, height: nat) -> GridView {
        GridView {
            width,
            height,
            cells: Seq::new(width * height, |i: int| Cell::spec_vacant()),
            body: Seq::empty(),
            heading: None,
        }
    }

    /// Where the creature starts: in the middle of the grid, and where the
    /// middle falls between two cells, in the one further east or south.
    pub open spec fn spec_start(width: nat, height: nat) -> Position {
        Position { x: (width / 2) as u32, y: (height / 2) as u32 }
    }

    /// The grid of the given size at the start of a game: a creature of one
    /// segment at the starting position, at rest, and nothing else.
    pub open spec fn spec_initial(width: nat, height: nat) -> GridView {
        let blank = GridView::spec_empty(width, height);
        let start = GridView::spec_start(width, height);
        GridView {
            cells: blank.cells.update(
                blank.index(start.x as int, start.y as int),
                Cell::spec_filled(CellVariant::Head),
            ),
            body: seq![start],
            ..blank
        }
    }

    /// The grid after the creature has been told to head towards `d`. A
    /// direction that leaves the layer of the grid is not taken up.
    pub open spec fn spec_steer(self, d: Direction) -> GridView {
        if d.spec_is_horizontal() {
            GridView { heading: Some(d), ..self }
        } else {
            self
        }
    }

    /// Whether food can be put in column `x` and row `y`: the cell is on the
    /// grid and has nothing in it.
    pub open spec fn spec_takes_food(self, x: int, y: int) -> bool {
        self.in_bounds(x, y) && !self.cell(x, y).occupied
    }

    /// The grid after food has been put in column `x` and row `y`, where
    /// there is room for it.
    pub open spec fn spec_place_food(self, x: int, y: int) -> GridView {
        if self.spec_takes_food(x, y) {
            GridView {
                cells: self.cells.update(self.index(x, y), Cell::spec_filled(CellVariant::Food)),
                ..self
            }
        } else {
            self
        }
    }

    /// The grid after the creature has moved its head to `target` and drawn
    /// in its tail: the old head becomes body, the cell of the tail falls
    /// vacant, and the creature is as long as before.
    pub open spec fn spec_advance(self, target: Position) -> GridView
        recommends
            self.body.len() > 0,
    {
        GridView {
            cells: self.cells.update(
                self.place(self.body[0]),
                Cell::spec_filled(CellVariant::Body),
            ).update(self.place(self.body.last()), Cell::spec_vacant()).update(
                self.place(target),
                Cell::spec_filled(CellVariant::Head),
            ),
            body: seq![target] + self.body.drop_last(),
            ..self
        }
    }

    /// The grid after the creature has moved its head to `target` and left
    /// its tail where it was: the old head becomes body, and the creature is
    /// one segment longer.
    pub open spec fn spec_grow(self, target: Position) -> GridView
        recommends
            self.body.len() > 0,
    {
        GridView {
            cells: self.cells.update(
                self.place(self.body[0]),
                Cell::spec_filled(CellVariant::Body),
            ).update(self.place(target), Cell::spec_filled(CellVariant::Head)),
            body: seq![target] + self.body,
            ..self
        }
    }
}

impl View for Grid {
    type V = GridView;

    closed spec fn view(&self) -> GridView {
        GridView {
            width: self.width as nat,
            height: self.height as nat,
            cells: self.cells@,
            body: self.body@,
            heading: self.heading,
        }
    }
}

impl Clone for Grid {
    /// A grid that holds what this one holds.
    fn clone(&self) -> (copy: Grid)
        ensures
            copy@ == self@,
    {
        let copy = Grid {
            width: self.width,
            height: self.height,
            cells: self.cells.clone(),
            body: self.body.clone(),
            heading: self.heading,
        };
        assert(copy.cells@ =~= self.cells@);
        assert(copy.body@ =~= self.body@);
        copy
    }
}

impl Grid {
    /// Everything that holds of a grid at all times. The constructors
    /// establish it and every operation keeps it.
    pub open spec fn wf(&self) -> bool {
        self@.wf()
    }

    /// The grid of the given size with nothing on it, or the reason why
    /// there is no such grid.
    pub fn empty(width: u32, height: u32) -> (r: Result<Grid, ConfigError>)
        ensures
            match r {
                Ok(grid) => {
                    &&& grid.wf()
                    &&& grid@ == GridView::spec_empty(width as nat, height as nat)
                    &&& width > 0 && height > 0 && width * height <= MAX_CELLS
                },
                Err(ConfigError::ZeroDimension) => width == 0 || height == 0,
                Err(ConfigError::TooLarge) => width > 0 && height > 0 && width * height
                    > MAX_CELLS,
            },
    {
        if width == 0 || height == 0 {
            return Err(ConfigError::ZeroDimension);
        }
        assert(width * height <= 0xFFFF_FFFF * 0xFFFF_FFFF) by (nonlinear_arith)
            requires
                width <= 0xFFFF_FFFF,
                height <= 0xFFFF_FFFF,
        ;
        let total: u64 = (width as u64) * (height as u64);
        if total > MAX_CELLS as u64 {
            return Err(ConfigError::TooLarge);
        }
        let count: usize = total as usize;
        let mut cells: Vec<Cell> = Vec::new();
        let mut i: usize = 0;
        while i < count
            invariant
                i <= count,
                cells@.len() == i,
                forall|k: int| 0 <= k < i ==> cells@[k] == Cell::spec_vacant(),
            decreases count - i,
        {
            cells.push(Cell::vacant());
            i += 1;
        }
        let grid = Grid { width, height, cells, body: VecDeque::new(), heading: None };
        proof {
            let v = grid@;
            assert(v.cells =~= GridView::spec_empty(width as nat, height as nat).cells);
            assert forall|x: int, y: int| v.in_bounds(x, y) implies !(#[trigger] v.cell(
                x,
                y,
            )).occupied by {
                lemma_index_in_range(v.width, v.height, x, y);
            }
        }
        Ok(grid)
    }

    /// The grid of the given size at the start of a game, or the reason why
    /// there is no such grid: the creature is one segment long, waits in the
    /// middle of the grid, and has no heading yet.
    pub fn new(width: u32, height: u32) -> (r: Result<Grid, ConfigError>)
        ensures
            match r {
                Ok(grid) => {
                    &&& grid.wf()
                    &&& grid@ == GridView::spec_initial(width as nat, height as nat)
                    &&& width > 0 && height > 0 && width * height <= MAX_CELLS
                },
                Err(ConfigError::ZeroDimension) => width == 0 || height == 0,
                Err(ConfigError::TooLarge) => width > 0 && height > 0 && width * height
                    > MAX_CELLS,
            },
    {
        let mut grid = match Grid::empty(width, height) {
            Ok(grid) => grid,
            Err(e) => {
                return Err(e);
            },
        };
        let start = Position { x: width / 2, y: height / 2 };
        let at = grid.index_of(start.x, start.y);
        grid.cells[at] = Cell::filled(CellVariant::Head);
        grid.body.push_back(start);
        proof {
            let v = grid@;
            assert(v.body =~= seq![start]);
            assert(v == GridView::spec_initial(width as nat, height as nat));
            assert forall|x: int, y: int|
                v.in_bounds(x, y) && (#[trigger] v.cell(x, y)).occupied implies v.body.contains(
                Position { x: x as u32, y: y as u32 },
            ) by {
                lemma_index_in_range(v.width, v.height, x, y);
                lemma_index_injective(v.width, x, y, start.x as int, start.y as int);
                assert(v.body[0] == start);
            }
        }
        Ok(grid)
    }

    /// The place among the cells of the cell in column `x` and row `y`.
    pub(crate) fn index_of(&self, x: u32, y: u32) -> (i: usize)
        requires
            self@.dims_ok(),
            self@.in_bounds(x as int, y as int),
        ensures
            i == self@.index(x as int, y as int),
            i < self@.cells.len(),
    {
        proof {
            lemma_index_in_range(self@.width, self@.height, x as int, y as int);
        }
        (y as usize) * (self.width as usize) + (x as usize)
    }

    /// The cell in column `x` and row `y`, or `None` where the grid has no
    /// such cell.
    pub fn cell(&self, x: u32, y: u32) -> (c: Option<Cell>)
        requires
            self.wf(),
        ensures
            c == if self@.in_bounds(x as int, y as int) {
                Some(self@.cell(x as int, y as int))
            } else {
                None
            },
    {
        if x < self.width && y < self.height {
            let at = self.index_of(x, y);
            Some(self.cells[at])
        } else {
            None
        }
    }

    /// Whether there is an occupied cell in column `x` and row `y`. Outside
    /// the grid nothing is occupied, and no cell is looked at.
    pub fn is_occupied(&self, x: i64, y: i64) -> (b: bool)
        requires
            self.wf(),
        ensures
            b == self@.occupied(x as int, y as int),
    {
        if 0 <= x && x < self.width as i64 && 0 <= y && y < self.height as i64 {
            let at = self.index_of(x as u32, y as u32);
            self.cells[at].occupied
        } else {
            false
        }
    }

    /// Where the creature will move at the next tick, if it moves at all.
    pub fn heading(&self) -> (h: Option<Direction>)
        ensures
            h == self@.heading,
    {
        self.heading
    }

    /// How many segments the creature has; 0 where there is no creature.
    pub fn length(&self) -> (n: usize)
        ensures
            n == self@.body.len(),
    {
        self.body.len()
    }

    /// The position of segment `i` of the creature, counted from the head,
    /// which is segment 0; `None` where the creature is not that long.
    pub fn segment(&self, i: usize) -> (p: Option<Position>)
        ensures
            p == if i < self@.body.len() {
                Some(self@.body[i as int])
            } else {
                None
            },
    {
        if i < self.body.len() {
            Some(self.body[i])
        } else {
            None
        }
    }

    /// The position of the creature's head; `None` where there is no
    /// creature.
    pub fn head(&self) -> (p: Option<Position>)
        ensures
            p == if self@.body.len() > 0 {
                Some(self@.body[0])
            } else {
                None
            },
    {
        self.segment(0)
    }

    /// Tells the creature to head towards `direction` from the next tick on.
    /// `Up` and `Down` lead off the grid's layer: they are refused, and the
    /// result says so.
    pub fn steer(&mut self, direction: Direction) -> (accepted: bool)
        requires
            old(self).wf(),
        ensures
            final(self).wf(),
            final(self)@ == old(self)@.spec_steer(direction),
            accepted == direction.spec_is_horizontal(),
    {
        proof {
            lemma_steer_keeps_wf(self@, direction);
        }
        if direction.is_horizontal() {
            self.heading = Some(direction);
            true
        } else {
            false
        }
    }

    /// Puts food in column `x` and row `y`. Where the grid has no such cell,
    /// or the cell is occupied, nothing changes, and the result says so.
    pub fn place_food(&mut self, x: u32, y: u32) -> (placed: bool)
        requires
            old(self).wf(),
        ensures
            final(self).wf(),
            final(self)@ == old(self)@.spec_place_food(x as int, y as int),
            placed == old(self)@.spec_takes_food(x as int, y as int),
    {
        proof {
            lemma_place_food_keeps_wf(self@, x as int, y as int);
        }
        if x < self.width && y < self.height {
            let at = self.index_of(x, y);
            if self.cells[at].occupied {
                false
            } else {
                self.cells[at] = Cell::filled(CellVariant::Food);
                true
            }
        } else {
            false
        }
    }

    /// Moves the creature's head to `target` and draws in its tail.
    pub(crate) fn advance_to(&mut self, target: Position)
        requires
            old(self).wf(),
            old(self)@.body.len() > 0,
            old(self)@.holds(target),
            !old(self)@.at(target).occupied,
        ensures
            final(self).wf(),
            final(self)@ == old(self)@.spec_advance(target),
    {
        proof {
            lemma_advance_keeps_wf(self@, target);
        }
        let head = self.body[0];
        let tail = self.body[self.body.len() - 1];
        let head_at = self.index_of(head.x, head.y);
        let tail_at = self.index_of(tail.x, tail.y);
        let target_at = self.index_of(target.x, target.y);
        self.cells[head_at] = Cell::filled(CellVariant::Body);
        self.cells[tail_at] = Cell::vacant();
        self.cells[target_at] = Cell::filled(CellVariant::Head);
        self.body.pop_back();
        self.body.push_front(target);
        assert(self@.body =~= old(self)@.spec_advance(target).body);
    }

    /// Moves the creature's head to `target` and leaves its tail in place.
    pub(crate) fn grow_to(&mut self, target: Position)
        requires
            old(self).wf(),
            old(self)@.body.len() > 0,
            old(self)@.holds(target),
            old(self)@.at(target) == Cell::spec_filled(CellVariant::Food),
        ensures
            final(self).wf(),
            final(self)@ == old(self)@.spec_grow(target),
    {
        proof {
            lemma_grow_keeps_wf(self@, target);
        }
        let head = self.body[0];
        let head_at = self.index_of(head.x, head.y);
        let target_at = self.index_of(target.x, target.y);
        self.cells[head_at] = Cell::filled(CellVariant::Body);
        self.cells[target_at] = Cell::filled(CellVariant::Head);
        self.body.push_front(target);
    }

    /// The number of columns.
    pub fn width(&self) -> (w: u32)
        ensures
            w == self@.width,
    {
        self.width
    }

    /// The number of rows.
    pub fn height(&self) -> (h: u32)
        ensures
            h == self@.height,
    {
        self.height
    }
}

} // verus!
