//! From the cells of a grid to the triangles that show them.
//!
//! Every occupied cell is a unit cube: the cell in column `x` and row `y`
//! fills the space from `(x, 0, y)` to `(x + 1, 1, y + 1)`. A face of the cube
//! is drawn only where nothing hides it, that is, where the cell has no
//! occupied neighbour on that side. A drawn face is a quad of two triangles:
//! six vertices of five numbers each, three for the position and two for the
//! texture coordinate.
//!
//! The cells are visited row by row and in each row from west to east, and
//! the faces of a cell in the order of [`Direction::index`], so the buffer
//! is a function of the cells and of nothing else.

use vstd::prelude::*;
use crate::block_face::{AtlasRect, BlockFace};
use crate::direction::{Direction, DIRECTION_COUNT};
use crate::grid::{Grid, GridView, MAX_CELLS};
use crate::mesh_proofs::{lemma_empty_grid_has_empty_mesh, lemma_mesh_lies_in_the_box};

verus! {

/// How many numbers a vertex takes in the buffer.
pub const VERTEX_SIZE: usize = 5;

/// How many numbers a face takes in the buffer: six vertices.
pub const FACE_SIZE: usize = 30;

/// The numbers of a buffer as mathematical integers.
pub open spec fn as_ints(buffer: Seq<i64>) -> Seq<int> {
    buffer.map_values(|v: i64| v as int)
}

/// Two buffers that hold the same integers are the same buffer, number for
/// number.
pub proof fn lemma_as_ints_is_injective(a: Seq<i64>, b: Seq<i64>)
    requires
        as_ints(a) == as_ints(b),
    ensures
        a == b,
{
    assert(a.len() == as_ints(a).len());
    assert(b.len() == as_ints(b).len());
    assert forall|i: int| 0 <= i < a.len() implies a[i] == b[i] by {
        assert(as_ints(a)[i] == a[i] as int);
        assert(as_ints(b)[i] == b[i] as int);
    }
    assert(a =~= b);
}

/// The corner of the unit cube at which the face `d` starts: its bottom
/// left corner for someone who looks at the face from outside the cube.
pub open spec fn spec_face_origin(d: Direction) -> (int, int, int) {
    match d {
        Direction::Up => (0, 1, 1),
        Direction::Down => (0, 0, 0),
        Direction::North => (1, 0, 0),
        Direction::South => (0, 0, 1),
        Direction::East => (1, 0, 1),
        Direction::West => (0, 0, 0),
    }
}

/// The edge of the face `d` that leads from its bottom left corner to its
/// bottom right corner.
pub open spec fn spec_face_right(d: Direction) -> (int, int, int) {
    match d {
        Direction::Up => (1, 0, 0),
        Direction::Down => (1, 0, 0),
        Direction::North => (-1, 0, 0),
        Direction::South => (1, 0, 0),
        Direction::East => (0, 0, -1),
        Direction::West => (0, 0, 1),
    }
}

/// The edge of the face `d` that leads from its bottom left corner to its
/// top left corner.
pub open spec fn spec_face_up(d: Direction) -> (int, int, int) {
    match d {
        Direction::Up => (0, 0, -1),
        Direction::Down => (0, 0, 1),
        _ => (0, 1, 0),
    }
}

/// Corner `k` of the face `d` of the unit cube. The corners are counted
/// from the bottom left one against the clock, as seen from outside: bottom
/// left, bottom right, top right, top left.
pub open spec fn spec_corner(d: Direction, k: int) -> (int, int, int) {
    let o = spec_face_origin(d);
    let r = spec_face_right(d);
    let u = spec_face_up(d);
    if k == 0 {
        o
    } else if k == 1 {
        (o.0 + r.0, o.1 + r.1, o.2 + r.2)
    } else if k == 2 {
        (o.0 + r.0 + u.0, o.1 + r.1 + u.1, o.2 + r.2 + u.2)
    } else {
        (o.0 + u.0, o.1 + u.1, o.2 + u.2)
    }
}

/// Corner `k` of a rectangle of the atlas, counted as the corners of a face
/// are: bottom left, bottom right, top right, top left.
pub open spec fn spec_corner_uv(rect: AtlasRect, k: int) -> (int, int) {
    if k == 0 {
        (rect.u_min as int, rect.v_min as int)
    } else if k == 1 {
        (rect.u_max as int, rect.v_min as int)
    } else if k == 2 {
        (rect.u_max as int, rect.v_max as int)
    } else {
        (rect.u_min as int, rect.v_max as int)
    }
}

/// The five numbers of the vertex at corner `k` of the face `d` of the cell
/// in column `x` and row `y`: its position, then its place in the atlas.
pub open spec fn spec_vertex(x: int, y: int, d: Direction, rect: AtlasRect, k: int) -> Seq<int> {
    let c = spec_corner(d, k);
    let t = spec_corner_uv(rect, k);
    seq![x + c.0, c.1, y + c.2, t.0, t.1]
}

/// The thirty numbers of the face `d` of the cell in column `x` and row
/// `y`: the triangle of the corners 0, 1 and 2, then that of 2, 3 and 0.
pub open spec fn spec_face(x: int, y: int, d: Direction, rect: AtlasRect) -> Seq<int> {
    spec_vertex(x, y, d, rect, 0) + spec_vertex(x, y, d, rect, 1) + spec_vertex(x, y, d, rect, 2)
        + spec_vertex(x, y, d, rect, 2) + spec_vertex(x, y, d, rect, 3) + spec_vertex(
        x,
        y,
        d,
        rect,
        0,
    )
}

/// Whether the face `d` of the cell in column `x` and row `y` can be seen:
/// the neighbour on that side is missing or unoccupied. The grid is one
/// layer thick, so nothing is ever above or below a cell, and beyond the
/// edge of the grid there is nothing either.
pub open spec fn spec_exposed(g: GridView, x: int, y: int, d: Direction) -> bool {
    let o = d.spec_offset();
    o.1 != 0 || !g.occupied(x + o.0, y + o.2)
}

/// What the face `d` of the cell in column `x` and row `y` adds to the
/// buffer: its thirty numbers where it can be seen, and nothing where it
/// cannot.
pub open spec fn spec_face_slot(g: GridView, x: int, y: int, d: Direction) -> Seq<int> {
    if spec_exposed(g, x, y, d) {
        spec_face(x, y, d, BlockFace::spec_select(g.cell(x, y).variant, d).spec_rect())
    } else {
        Seq::empty()
    }
}

/// What the first `k` faces of the cell in column `x` and row `y` add to
/// the buffer, in the order of the directions.
pub open spec fn spec_cell_faces(g: GridView, x: int, y: int, k: nat) -> Seq<int>
    decreases k,
{
    if k == 0 {
        Seq::empty()
    } else {
        spec_cell_faces(g, x, y, (k - 1) as nat) + spec_face_slot(
            g,
            x,
            y,
            Direction::spec_from_index(k - 1),
        )
    }
}

/// What the cell in column `x` and row `y` adds to the buffer: its visible
/// faces where it is occupied, and nothing where it is not.
pub open spec fn spec_cell_mesh(g: GridView, x: int, y: int) -> Seq<int> {
    if g.cell(x, y).occupied {
        spec_cell_faces(g, x, y, 6)
    } else {
        Seq::empty()
    }
}

/// What the first `n` cells of row `y` add to the buffer, from west to
/// east.
pub open spec fn spec_row_mesh(g: GridView, y: int, n: nat) -> Seq<int>
    decreases n,
{
    if n == 0 {
        Seq::empty()
    } else {
        spec_row_mesh(g, y, (n - 1) as nat) + spec_cell_mesh(g, n - 1, y)
    }
}

/// What the first `m` rows add to the buffer, from north to south.
pub open spec fn spec_rows_mesh(g: GridView, m: nat) -> Seq<int>
    decreases m,
{
    if m == 0 {
        Seq::empty()
    } else {
        spec_rows_mesh(g, (m - 1) as nat) + spec_row_mesh(g, m - 1, g.width)
    }
}

/// The vertex buffer of a grid.
pub open spec fn spec_mesh(g: GridView) -> Seq<int> {
    spec_rows_mesh(g, g.height)
}

/// How many of the first `k` faces of the cell in column `x` and row `y`
/// can be seen.
pub open spec fn spec_exposed_count(g: GridView, x: int, y: int, k: nat) -> nat
    decreases k,
{
    if k == 0 {
        0
    } else {
        spec_exposed_count(g, x, y, (k - 1) as nat) + if spec_exposed(
            g,
            x,
            y,
            Direction::spec_from_index(k - 1),
        ) {
            1nat
        } else {
            0nat
        }
    }
}

/// How many faces the cell in column `x` and row `y` shows.
pub open spec fn spec_cell_face_count(g: GridView, x: int, y: int) -> nat {
    if g.cell(x, y).occupied {
        spec_exposed_count(g, x, y, 6)
    } else {
        0
    }
}

/// How many faces the first `n` cells of row `y` show.
pub open spec fn spec_row_face_count(g: GridView, y: int, n: nat) -> nat
    decreases n,
{
    if n == 0 {
        0
    } else {
        spec_row_face_count(g, y, (n - 1) as nat) + spec_cell_face_count(g, n - 1, y)
    }
}

/// How many faces the first `m` rows show.
pub open spec fn spec_rows_face_count(g: GridView, m: nat) -> nat
    decreases m,
{
    if m == 0 {
        0
    } else {
        spec_rows_face_count(g, (m - 1) as nat) + spec_row_face_count(g, m - 1, g.width)
    }
}

/// How many faces the grid shows.
pub open spec fn spec_face_count(g: GridView) -> nat {
    spec_rows_face_count(g, g.height)
}

/// A face takes thirty numbers.
pub proof fn lemma_face_len(x: int, y: int, d: Direction, rect: AtlasRect)
    ensures
        spec_face(x, y, d, rect).len() == 30,
{
}

/// The first `k` faces of a cell take thirty numbers for each one that can
/// be seen.
pub proof fn lemma_cell_faces_len(g: GridView, x: int, y: int, k: nat)
    ensures
        spec_cell_faces(g, x, y, k).len() == 30 * spec_exposed_count(g, x, y, k),
    decreases k,
{
    if k > 0 {
        lemma_cell_faces_len(g, x, y, (k - 1) as nat);
        let d = Direction::spec_from_index(k - 1);
        lemma_face_len(x, y, d, BlockFace::spec_select(g.cell(x, y).variant, d).spec_rect());
    }
}

/// The first `n` cells of a row take thirty numbers for each face they
/// show.
pub proof fn lemma_row_mesh_len(g: GridView, y: int, n: nat)
    ensures
        spec_row_mesh(g, y, n).len() == 30 * spec_row_face_count(g, y, n),
    decreases n,
{
    if n > 0 {
        lemma_row_mesh_len(g, y, (n - 1) as nat);
        lemma_cell_faces_len(g, n - 1, y, 6);
    }
}

/// The first `m` rows take thirty numbers for each face they show.
pub proof fn lemma_rows_mesh_len(g: GridView, m: nat)
    ensures
        spec_rows_mesh(g, m).len() == 30 * spec_rows_face_count(g, m),
    decreases m,
{
    if m > 0 {
        lemma_rows_mesh_len(g, (m - 1) as nat);
        lemma_row_mesh_len(g, m - 1, g.width);
    }
}

/// The buffer of any grid holds thirty numbers for each face that the grid
/// shows, so its length is a multiple of thirty.
pub proof fn lemma_mesh_len(g: GridView)
    ensures
        spec_mesh(g).len() == 30 * spec_face_count(g),
        spec_mesh(g).len() % 30 == 0,
{
    lemma_rows_mesh_len(g, g.height);
}

/// The three edges that span the face `d` of the unit cube: where it
/// starts, its bottom edge and its left edge.
fn face_frame(d: Direction) -> (f: ((i64, i64, i64), (i64, i64, i64), (i64, i64, i64)))
    ensures
        (f.0.0 as int, f.0.1 as int, f.0.2 as int) == spec_face_origin(d),
        (f.1.0 as int, f.1.1 as int, f.1.2 as int) == spec_face_right(d),
        (f.2.0 as int, f.2.1 as int, f.2.2 as int) == spec_face_up(d),
{
    match d {
        Direction::Up => ((0, 1, 1), (1, 0, 0), (0, 0, -1)),
        Direction::Down => ((0, 0, 0), (1, 0, 0), (0, 0, 1)),
        Direction::North => ((1, 0, 0), (-1, 0, 0), (0, 1, 0)),
        Direction::South => ((0, 0, 1), (1, 0, 0), (0, 1, 0)),
        Direction::East => ((1, 0, 1), (0, 0, -1), (0, 1, 0)),
        Direction::West => ((0, 0, 0), (0, 0, 1), (0, 1, 0)),
    }
}

/// Appends the vertex at corner `k` of the face `d` of the cell in column
/// `x` and row `y`.
fn push_vertex(buffer: &mut Vec<i64>, x: u32, y: u32, d: Direction, rect: AtlasRect, k: u8)
    requires
        k < 4,
    ensures
        as_ints(final(buffer)@) == as_ints(old(buffer)@) + spec_vertex(
            x as int,
            y as int,
            d,
            rect,
            k as int,
        ),
{
    let (o, r, u): ((i64, i64, i64), (i64, i64, i64), (i64, i64, i64)) = face_frame(d);
    let along: bool = k == 1 || k == 2;
    let across: bool = k == 2 || k == 3;
    let mut px: i64 = x as i64 + o.0;
    let mut py: i64 = o.1;
    let mut pz: i64 = y as i64 + o.2;
    if along {
        px = px + r.0;
        py = py + r.1;
        pz = pz + r.2;
    }
    if across {
        px = px + u.0;
        py = py + u.1;
        pz = pz + u.2;
    }
    let tu: i64 = if along {
        rect.u_max as i64
    } else {
        rect.u_min as i64
    };
    let tv: i64 = if across {
        rect.v_max as i64
    } else {
        rect.v_min as i64
    };
    buffer.push(px);
    buffer.push(py);
    buffer.push(pz);
    buffer.push(tu);
    buffer.push(tv);
    assert(as_ints(buffer@) =~= as_ints(old(buffer)@) + spec_vertex(
        x as int,
        y as int,
        d,
        rect,
        k as int,
    ));
}

/// Appends the two triangles of the face `d` of the cell in column `x` and
/// row `y`.
fn push_face(buffer: &mut Vec<i64>, x: u32, y: u32, d: Direction, rect: AtlasRect)
    ensures
        as_ints(final(buffer)@) == as_ints(old(buffer)@) + spec_face(x as int, y as int, d, rect),
{
    push_vertex(buffer, x, y, d, rect, 0);
    push_vertex(buffer, x, y, d, rect, 1);
    push_vertex(buffer, x, y, d, rect, 2);
    push_vertex(buffer, x, y, d, rect, 2);
    push_vertex(buffer, x, y, d, rect, 3);
    push_vertex(buffer, x, y, d, rect, 0);
    assert(as_ints(buffer@) =~= as_ints(old(buffer)@) + spec_face(x as int, y as int, d, rect));
}

/// Whether the face `d` of the cell in column `x` and row `y` can be seen.
/// A neighbour beyond the edge of the grid is never looked up: what is not
/// there hides nothing.
pub fn is_exposed(grid: &Grid, x: u32, y: u32, d: Direction) -> (b: bool)
    requires
        grid.wf(),
    ensures
        b == spec_exposed(grid@, x as int, y as int, d),
{
    let (dx, dy, dz): (i64, i64, i64) = d.offset();
    if dy != 0 {
        true
    } else {
        !grid.is_occupied(x as i64 + dx, y as i64 + dz)
    }
}

/// Appends what the cell in column `x` and row `y` shows.
fn push_cell(buffer: &mut Vec<i64>, grid: &Grid, x: u32, y: u32)
    requires
        grid.wf(),
        grid@.in_bounds(x as int, y as int),
    ensures
        as_ints(final(buffer)@) == as_ints(old(buffer)@) + spec_cell_mesh(
            grid@,
            x as int,
            y as int,
        ),
{
    let cell = match grid.cell(x, y) {
        Some(cell) => cell,
        None => {
            return ;
        },
    };
    if !cell.occupied {
        assert(as_ints(buffer@) =~= as_ints(old(buffer)@) + Seq::<int>::empty());
        return ;
    }
    let mut k: usize = 0;
    assert(as_ints(buffer@) =~= as_ints(old(buffer)@) + spec_cell_faces(
        grid@,
        x as int,
        y as int,
        0,
    ));
    while k < DIRECTION_COUNT
        invariant
            k <= DIRECTION_COUNT,
            grid.wf(),
            grid@.in_bounds(x as int, y as int),
            cell == grid@.cell(x as int, y as int),
            as_ints(buffer@) == as_ints(old(buffer)@) + spec_cell_faces(
                grid@,
                x as int,
                y as int,
                k as nat,
            ),
        decreases DIRECTION_COUNT - k,
    {
        let ghost before = as_ints(buffer@);
        let d = match Direction::from_index(k) {
            Some(d) => d,
            None => {
                return ;
            },
        };
        if is_exposed(grid, x, y, d) {
            push_face(buffer, x, y, d, BlockFace::select(cell.variant, d).rect());
        }
        assert(as_ints(buffer@) =~= before + spec_face_slot(grid@, x as int, y as int, d));
        k += 1;
        assert(as_ints(buffer@) =~= as_ints(old(buffer)@) + spec_cell_faces(
            grid@,
            x as int,
            y as int,
            k as nat,
        ));
    }
}

/// The vertex buffer of a grid: for every occupied cell, the faces that no
/// occupied neighbour hides, each as two triangles.
///
/// The numbers come five to a vertex: the position `x, y, z` of a corner of
/// the cell's cube, then the texture coordinate `u, v` in tiles of the
/// atlas. The buffer holds thirty numbers for every visible face and nothing
/// else; for a grid with no occupied cell it is empty. No number is negative
/// or greater than [`MAX_CELLS`].
pub fn build(grid: &Grid) -> (buffer: Vec<i64>)
    requires
        grid.wf(),
    ensures
        as_ints(buffer@) == spec_mesh(grid@),
        buffer@.len() == 30 * spec_face_count(grid@),
        buffer@.len() % 30 == 0,
        (forall|x: int, y: int| !#[trigger] grid@.occupied(x, y)) ==> buffer@.len() == 0,
        forall|i: int| 0 <= i < buffer@.len() ==> 0 <= #[trigger] buffer@[i] <= MAX_CELLS,
{
    let mut buffer: Vec<i64> = Vec::new();
    let width = grid.width();
    let height = grid.height();
    let mut y: u32 = 0;
    assert(as_ints(buffer@) =~= spec_rows_mesh(grid@, 0));
    while y < height
        invariant
            y <= height,
            grid.wf(),
            width == grid@.width,
            height == grid@.height,
            as_ints(buffer@) == spec_rows_mesh(grid@, y as nat),
        decreases height - y,
    {
        let ghost above = as_ints(buffer@);
        let mut x: u32 = 0;
        assert(as_ints(buffer@) =~= above + spec_row_mesh(grid@, y as int, 0));
        while x < width
            invariant
                x <= width,
                y < height,
                grid.wf(),
                width == grid@.width,
                height == grid@.height,
                as_ints(buffer@) == above + spec_row_mesh(grid@, y as int, x as nat),
            decreases width - x,
        {
            let ghost before = as_ints(buffer@);
            push_cell(&mut buffer, grid, x, y);
            assert(as_ints(buffer@) =~= above + (spec_row_mesh(grid@, y as int, x as nat)
                + spec_cell_mesh(grid@, x as int, y as int)));
            x += 1;
        }
        y += 1;
    }
    proof {
        lemma_mesh_len(grid@);
        assert(as_ints(buffer@).len() == buffer@.len());
        if forall|x: int, y: int| !#[trigger] grid@.occupied(x, y) {
            lemma_empty_grid_has_empty_mesh(grid@);
        }
        lemma_mesh_lies_in_the_box(grid@);
        assert forall|i: int| 0 <= i < buffer@.len() implies 0 <= #[trigger] buffer@[i]
            <= MAX_CELLS by {
            assert(as_ints(buffer@)[i] == buffer@[i]);
        }
    }
    buffer
}

} // verus!
