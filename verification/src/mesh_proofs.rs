//! What holds of the vertex buffer of every grid.

use vstd::prelude::*;
use crate::block_face::{lemma_tiles_are_disjoint, AtlasRect, BlockFace, ATLAS_TILES};
use crate::direction::Direction;
use crate::grid::{GridView, MAX_CELLS};
use crate::grid_proofs::lemma_sides_bounded;
use crate::mesh::{
    as_ints, lemma_as_ints_is_injective, lemma_face_len, lemma_mesh_len, spec_cell_face_count,
    spec_cell_faces, spec_corner, spec_corner_uv, spec_exposed, spec_exposed_count, spec_face,
    spec_cell_mesh, spec_face_count, spec_face_right, spec_face_slot, spec_face_up, spec_mesh,
    spec_row_face_count, spec_row_mesh, spec_rows_face_count, spec_rows_mesh, spec_vertex,
};

verus! {

/// Two grids of the same size with the same cells are the same to the mesh
/// builder, whatever else they hold.
pub open spec fn same_cells(g: GridView, h: GridView) -> bool {
    g.width == h.width && g.height == h.height && g.cells == h.cells
}

/// The faces of a cell depend on the cells alone.
proof fn lemma_cell_faces_same(g: GridView, h: GridView, x: int, y: int, k: nat)
    requires
        same_cells(g, h),
    ensures
        spec_cell_faces(g, x, y, k) == spec_cell_faces(h, x, y, k),
    decreases k,
{
    if k > 0 {
        lemma_cell_faces_same(g, h, x, y, (k - 1) as nat);
        let d = Direction::spec_from_index(k - 1);
        let o = d.spec_offset();
        assert(g.occupied(x + o.0, y + o.2) == h.occupied(x + o.0, y + o.2));
        assert(g.cell(x, y) == h.cell(x, y));
    }
}

/// What a row adds to the buffer depends on the cells alone.
proof fn lemma_row_mesh_same(g: GridView, h: GridView, y: int, n: nat)
    requires
        same_cells(g, h),
    ensures
        spec_row_mesh(g, y, n) == spec_row_mesh(h, y, n),
    decreases n,
{
    if n > 0 {
        lemma_row_mesh_same(g, h, y, (n - 1) as nat);
        lemma_cell_faces_same(g, h, n - 1, y, 6);
        assert(g.cell(n - 1, y) == h.cell(n - 1, y));
    }
}

/// What the first rows add to the buffer depends on the cells alone.
proof fn lemma_rows_mesh_same(g: GridView, h: GridView, m: nat)
    requires
        same_cells(g, h),
    ensures
        spec_rows_mesh(g, m) == spec_rows_mesh(h, m),
    decreases m,
{
    if m > 0 {
        lemma_rows_mesh_same(g, h, (m - 1) as nat);
        lemma_row_mesh_same(g, h, m - 1, g.width);
    }
}

/// The buffer is determined by the size of the grid and by its cells,
/// wherever the creature is heading.
pub proof fn lemma_mesh_is_determined_by_cells(g: GridView, h: GridView)
    requires
        same_cells(g, h),
    ensures
        spec_mesh(g) == spec_mesh(h),
{
    lemma_rows_mesh_same(g, h, g.height);
}

/// Building is deterministic: two buffers built from grids whose cells are
/// the same hold the same numbers in the same order. `a` and `b` stand for
/// what two calls of `build` returned, of which each is known to hold the
/// mesh of its grid.
pub proof fn lemma_build_is_deterministic(a: Seq<i64>, b: Seq<i64>, g: GridView, h: GridView)
    requires
        as_ints(a) == spec_mesh(g),
        as_ints(b) == spec_mesh(h),
        same_cells(g, h),
    ensures
        a == b,
{
    lemma_mesh_is_determined_by_cells(g, h);
    lemma_as_ints_is_injective(a, b);
}

/// A stretch of unoccupied cells at the end of a row adds nothing to the
/// buffer.
proof fn lemma_row_mesh_skip(g: GridView, y: int, lo: nat, n: nat)
    requires
        lo <= n,
        forall|x: int| lo <= x < n ==> !(#[trigger] g.cell(x, y)).occupied,
    ensures
        spec_row_mesh(g, y, n) == spec_row_mesh(g, y, lo),
    decreases n,
{
    if n > lo {
        lemma_row_mesh_skip(g, y, lo, (n - 1) as nat);
        assert(!g.cell(n - 1, y).occupied);
        assert(spec_row_mesh(g, y, n) =~= spec_row_mesh(g, y, (n - 1) as nat));
    }
}

/// A stretch of rows without an occupied cell adds nothing to the buffer.
proof fn lemma_rows_mesh_skip(g: GridView, lo: nat, m: nat)
    requires
        lo <= m,
        forall|x: int, y: int| 0 <= x < g.width && lo <= y < m ==> !(#[trigger] g.cell(x, y)).occupied,
    ensures
        spec_rows_mesh(g, m) == spec_rows_mesh(g, lo),
    decreases m,
{
    if m > lo {
        lemma_rows_mesh_skip(g, lo, (m - 1) as nat);
        lemma_row_mesh_skip(g, m - 1, 0, g.width);
        assert(spec_rows_mesh(g, m) =~= spec_rows_mesh(g, (m - 1) as nat));
    }
}

/// A stretch of unoccupied cells at the end of a row shows no face.
proof fn lemma_row_count_skip(g: GridView, y: int, lo: nat, n: nat)
    requires
        lo <= n,
        forall|x: int| lo <= x < n ==> !(#[trigger] g.cell(x, y)).occupied,
    ensures
        spec_row_face_count(g, y, n) == spec_row_face_count(g, y, lo),
    decreases n,
{
    if n > lo {
        lemma_row_count_skip(g, y, lo, (n - 1) as nat);
        assert(!g.cell(n - 1, y).occupied);
    }
}

/// A stretch of rows that show no face adds no face.
proof fn lemma_rows_count_skip(g: GridView, lo: nat, m: nat)
    requires
        lo <= m,
        forall|y: int| lo <= y < m ==> #[trigger] spec_row_face_count(g, y, g.width) == 0,
    ensures
        spec_rows_face_count(g, m) == spec_rows_face_count(g, lo),
    decreases m,
{
    if m > lo {
        lemma_rows_count_skip(g, lo, (m - 1) as nat);
        assert(spec_row_face_count(g, m - 1, g.width) == 0);
    }
}

/// A row in which only the cell in column `a` may be occupied shows what
/// that cell shows.
proof fn lemma_row_count_single(g: GridView, y: int, a: int)
    requires
        0 <= a < g.width,
        forall|x: int| 0 <= x < g.width && x != a ==> !(#[trigger] g.cell(x, y)).occupied,
    ensures
        spec_row_face_count(g, y, g.width) == spec_cell_face_count(g, a, y),
{
    lemma_row_count_skip(g, y, (a + 1) as nat, g.width);
    lemma_row_count_skip(g, y, 0, a as nat);
}

/// A grid in which only row `b` may show a face shows what that row shows.
proof fn lemma_rows_count_single(g: GridView, b: int)
    requires
        0 <= b < g.height,
        forall|y: int|
            0 <= y < g.height && y != b ==> #[trigger] spec_row_face_count(g, y, g.width) == 0,
    ensures
        spec_face_count(g) == spec_row_face_count(g, b, g.width),
{
    lemma_rows_count_skip(g, (b + 1) as nat, g.height);
    lemma_rows_count_skip(g, 0, b as nat);
}

/// A row without an occupied cell shows no face.
proof fn lemma_row_count_vacant(g: GridView, y: int)
    requires
        forall|x: int| 0 <= x < g.width ==> !(#[trigger] g.cell(x, y)).occupied,
    ensures
        spec_row_face_count(g, y, g.width) == 0,
{
    lemma_row_count_skip(g, y, 0, g.width);
}

/// A cell all of whose faces can be seen shows six faces.
proof fn lemma_count_all_exposed(g: GridView, x: int, y: int)
    requires
        forall|d: Direction| spec_exposed(g, x, y, d),
    ensures
        spec_exposed_count(g, x, y, 6) == 6,
{
    reveal_with_fuel(spec_exposed_count, 7);
}

/// A cell of which one face is hidden and the others can be seen shows five
/// faces.
proof fn lemma_count_one_hidden(g: GridView, x: int, y: int, hidden: Direction)
    requires
        forall|d: Direction| spec_exposed(g, x, y, d) <==> d != hidden,
    ensures
        spec_exposed_count(g, x, y, 6) == 5,
{
    reveal_with_fuel(spec_exposed_count, 7);
}

/// A grid without an occupied cell has an empty buffer.
pub proof fn lemma_empty_grid_has_empty_mesh(g: GridView)
    requires
        forall|x: int, y: int| !#[trigger] g.occupied(x, y),
    ensures
        spec_face_count(g) == 0,
        spec_mesh(g) == Seq::<int>::empty(),
{
    assert forall|y: int| 0 <= y < g.height implies #[trigger] spec_row_face_count(g, y, g.width)
        == 0 by {
        assert forall|x: int| 0 <= x < g.width implies !(#[trigger] g.cell(x, y)).occupied by {
            assert(!g.occupied(x, y));
        }
        lemma_row_count_vacant(g, y);
    }
    lemma_rows_count_skip(g, 0, g.height);
    lemma_mesh_len(g);
    assert(spec_mesh(g) =~= Seq::<int>::empty());
}

/// A grid with one occupied cell and no other shows all six faces of that
/// cell: its buffer holds 180 numbers, which are the six faces of the cell
/// in the order of the directions.
pub proof fn lemma_lone_cell_shows_six_faces(g: GridView, x: int, y: int)
    requires
        g.occupied(x, y),
        forall|a: int, b: int| #[trigger] g.occupied(a, b) ==> a == x && b == y,
    ensures
        spec_face_count(g) == 6,
        spec_mesh(g).len() == 180,
        forall|d: Direction| spec_exposed(g, x, y, d),
        spec_mesh(g) == spec_cell_faces(g, x, y, 6),
{
    assert forall|d: Direction| spec_exposed(g, x, y, d) by {
        let o = d.spec_offset();
        assert(!g.occupied(x + o.0, y + o.2) || o.1 != 0);
    }
    lemma_count_all_exposed(g, x, y);
    assert forall|a: int| 0 <= a < g.width && a != x implies !(#[trigger] g.cell(a, y)).occupied by {
        assert(!g.occupied(a, y));
    }
    lemma_row_count_single(g, y, x);
    assert forall|b: int| 0 <= b < g.height && b != y implies #[trigger] spec_row_face_count(
        g,
        b,
        g.width,
    ) == 0 by {
        assert forall|a: int| 0 <= a < g.width implies !(#[trigger] g.cell(a, b)).occupied by {
            assert(!g.occupied(a, b));
        }
        lemma_row_count_vacant(g, b);
    }
    lemma_rows_count_single(g, y);
    lemma_mesh_len(g);
    // The buffer is what the one cell adds: nothing comes before it and
    // nothing after it.
    assert forall|a: int, b: int| 0 <= a < g.width && 0 <= b < g.height && !(a == x && b == y)
        implies !(#[trigger] g.cell(a, b)).occupied by {
        assert(!g.occupied(a, b));
    }
    lemma_rows_mesh_skip(g, (y + 1) as nat, g.height);
    lemma_rows_mesh_skip(g, 0, y as nat);
    lemma_row_mesh_skip(g, y, (x + 1) as nat, g.width);
    lemma_row_mesh_skip(g, y, 0, x as nat);
    assert(spec_row_mesh(g, y, (x + 1) as nat) =~= spec_cell_faces(g, x, y, 6));
    assert(spec_rows_mesh(g, (y + 1) as nat) =~= spec_cell_faces(g, x, y, 6));
}

/// Two occupied cells side by side in a row, and no other: ten faces.
proof fn lemma_pair_in_row(g: GridView, x: int, y: int)
    requires
        g.occupied(x, y),
        g.occupied(x + 1, y),
        forall|a: int, b: int| #[trigger] g.occupied(a, b) ==> b == y && (a == x || a == x + 1),
    ensures
        spec_face_count(g) == 10,
{
    assert forall|d: Direction| spec_exposed(g, x, y, d) <==> d != Direction::East by {
        let o = d.spec_offset();
        assert(d != Direction::East ==> !g.occupied(x + o.0, y + o.2) || o.1 != 0);
    }
    lemma_count_one_hidden(g, x, y, Direction::East);
    let east = x + 1;
    assert forall|d: Direction| spec_exposed(g, east, y, d) <==> d != Direction::West by {
        let o = d.spec_offset();
        assert(d != Direction::West ==> !g.occupied(east + o.0, y + o.2) || o.1 != 0);
    }
    lemma_count_one_hidden(g, east, y, Direction::West);
    assert forall|a: int| x + 2 <= a < g.width implies !(#[trigger] g.cell(a, y)).occupied by {
        assert(!g.occupied(a, y));
    }
    lemma_row_count_skip(g, y, (x + 2) as nat, g.width);
    assert forall|a: int| 0 <= a < x implies !(#[trigger] g.cell(a, y)).occupied by {
        assert(!g.occupied(a, y));
    }
    lemma_row_count_skip(g, y, 0, x as nat);
    assert(spec_row_face_count(g, y, (x + 2) as nat) == spec_row_face_count(g, y, (x + 1) as nat)
        + spec_cell_face_count(g, x + 1, y));
    assert(spec_row_face_count(g, y, (x + 1) as nat) == spec_row_face_count(g, y, x as nat)
        + spec_cell_face_count(g, x, y));
    assert forall|b: int| 0 <= b < g.height && b != y implies #[trigger] spec_row_face_count(
        g,
        b,
        g.width,
    ) == 0 by {
        assert forall|a: int| 0 <= a < g.width implies !(#[trigger] g.cell(a, b)).occupied by {
            assert(!g.occupied(a, b));
        }
        lemma_row_count_vacant(g, b);
    }
    lemma_rows_count_single(g, y);
}

/// Two occupied cells one below the other in a column, and no other: ten
/// faces.
proof fn lemma_pair_in_column(g: GridView, x: int, y: int)
    requires
        g.occupied(x, y),
        g.occupied(x, y + 1),
        forall|a: int, b: int| #[trigger] g.occupied(a, b) ==> a == x && (b == y || b == y + 1),
    ensures
        spec_face_count(g) == 10,
{
    assert forall|d: Direction| spec_exposed(g, x, y, d) <==> d != Direction::South by {
        let o = d.spec_offset();
        assert(d != Direction::South ==> !g.occupied(x + o.0, y + o.2) || o.1 != 0);
    }
    lemma_count_one_hidden(g, x, y, Direction::South);
    let south = y + 1;
    assert forall|d: Direction| spec_exposed(g, x, south, d) <==> d != Direction::North by {
        let o = d.spec_offset();
        assert(d != Direction::North ==> !g.occupied(x + o.0, south + o.2) || o.1 != 0);
    }
    lemma_count_one_hidden(g, x, south, Direction::North);
    assert forall|a: int| 0 <= a < g.width && a != x implies !(#[trigger] g.cell(a, y)).occupied by {
        assert(!g.occupied(a, y));
    }
    lemma_row_count_single(g, y, x);
    assert forall|a: int| 0 <= a < g.width && a != x implies !(#[trigger] g.cell(
        a,
        south,
    )).occupied by {
        assert(!g.occupied(a, south));
    }
    lemma_row_count_single(g, south, x);
    assert forall|b: int| 0 <= b < g.height && b != y && b != y + 1 implies #[trigger] spec_row_face_count(
        g,
        b,
        g.width,
    ) == 0 by {
        assert forall|a: int| 0 <= a < g.width implies !(#[trigger] g.cell(a, b)).occupied by {
            assert(!g.occupied(a, b));
        }
        lemma_row_count_vacant(g, b);
    }
    lemma_rows_count_skip(g, (y + 2) as nat, g.height);
    lemma_rows_count_skip(g, 0, y as nat);
    assert(spec_rows_face_count(g, (y + 2) as nat) == spec_rows_face_count(g, (y + 1) as nat)
        + spec_row_face_count(g, y + 1, g.width));
    assert(spec_rows_face_count(g, (y + 1) as nat) == spec_rows_face_count(g, y as nat)
        + spec_row_face_count(g, y, g.width));
}

/// A grid with two occupied cells that touch, and no other, shows ten
/// faces, not twelve: each of the two hides the face by which it touches
/// the other. The second cell is the neighbour of the first on the side
/// `d`.
pub proof fn lemma_touching_pair_shows_ten_faces(g: GridView, x: int, y: int, d: Direction)
    requires
        d.spec_is_horizontal(),
        g.occupied(x, y),
        g.occupied(x + d.spec_offset().0, y + d.spec_offset().2),
        forall|a: int, b: int| #[trigger]
            g.occupied(a, b) ==> (a == x && b == y) || (a == x + d.spec_offset().0 && b == y
                + d.spec_offset().2),
    ensures
        spec_face_count(g) == 10,
        spec_mesh(g).len() == 300,
        !spec_exposed(g, x, y, d),
        !spec_exposed(g, x + d.spec_offset().0, y + d.spec_offset().2, d.spec_opposite()),
{
    match d {
        Direction::East => lemma_pair_in_row(g, x, y),
        Direction::West => lemma_pair_in_row(g, x - 1, y),
        Direction::South => lemma_pair_in_column(g, x, y),
        Direction::North => lemma_pair_in_column(g, x, y - 1),
        _ => {},
    }
    lemma_mesh_len(g);
}

/// Where two occupied cells touch, neither shows the face by which it
/// touches the other, whatever else is on the grid.
pub proof fn lemma_shared_face_is_hidden(g: GridView, x: int, y: int, d: Direction)
    requires
        d.spec_is_horizontal(),
        g.occupied(x, y),
        g.occupied(x + d.spec_offset().0, y + d.spec_offset().2),
    ensures
        !spec_exposed(g, x, y, d),
        !spec_exposed(g, x + d.spec_offset().0, y + d.spec_offset().2, d.spec_opposite()),
        spec_face_slot(g, x, y, d) == Seq::<int>::empty(),
{
}

/// The edge of the grid hides nothing: a face that looks out of the grid,
/// or up or down, can always be seen, and an occupied cell always draws it.
pub proof fn lemma_outward_face_is_exposed(g: GridView, x: int, y: int, d: Direction)
    requires
        g.in_bounds(x, y),
        !d.spec_is_horizontal() || !g.in_bounds(x + d.spec_offset().0, y + d.spec_offset().2),
    ensures
        spec_exposed(g, x, y, d),
        spec_face_slot(g, x, y, d) == spec_face(
            x,
            y,
            d,
            BlockFace::spec_select(g.cell(x, y).variant, d).spec_rect(),
        ),
        spec_face_slot(g, x, y, d).len() == 30,
{
    lemma_face_len(x, y, d, BlockFace::spec_select(g.cell(x, y).variant, d).spec_rect());
}

/// The cross product of two vectors.
pub open spec fn cross(a: (int, int, int), b: (int, int, int)) -> (int, int, int) {
    (a.1 * b.2 - a.2 * b.1, a.2 * b.0 - a.0 * b.2, a.0 * b.1 - a.1 * b.0)
}

/// The corners of every face are corners of the unit cube on the side that
/// the face is named after, and they run against the clock for someone who
/// looks at the face from outside: the bottom edge crossed with the left
/// edge gives the direction of the face. The corners of the texture
/// rectangle run the same way round, so no face shows its texture mirrored.
pub proof fn lemma_face_winding(d: Direction, rect: AtlasRect, k: int)
    requires
        rect.wf(),
        0 <= k < 4,
    ensures
        cross(spec_face_right(d), spec_face_up(d)) == d.spec_offset(),
        0 <= spec_corner(d, k).0 <= 1,
        0 <= spec_corner(d, k).1 <= 1,
        0 <= spec_corner(d, k).2 <= 1,
        d.spec_offset().0 == 1 ==> spec_corner(d, k).0 == 1,
        d.spec_offset().0 == -1 ==> spec_corner(d, k).0 == 0,
        d.spec_offset().1 == 1 ==> spec_corner(d, k).1 == 1,
        d.spec_offset().1 == -1 ==> spec_corner(d, k).1 == 0,
        d.spec_offset().2 == 1 ==> spec_corner(d, k).2 == 1,
        d.spec_offset().2 == -1 ==> spec_corner(d, k).2 == 0,
        spec_corner_uv(rect, 1).0 > spec_corner_uv(rect, 0).0,
        spec_corner_uv(rect, 1).1 == spec_corner_uv(rect, 0).1,
        spec_corner_uv(rect, 3).0 == spec_corner_uv(rect, 0).0,
        spec_corner_uv(rect, 3).1 > spec_corner_uv(rect, 0).1,
        spec_corner_uv(rect, 2) == (spec_corner_uv(rect, 1).0, spec_corner_uv(rect, 3).1),
{
    match d {
        Direction::Up => assert(cross((1, 0, 0), (0, 0, -1)) == (0int, 1int, 0int)),
        Direction::Down => assert(cross((1, 0, 0), (0, 0, 1)) == (0int, -1int, 0int)),
        Direction::North => assert(cross((-1, 0, 0), (0, 1, 0)) == (0int, 0int, -1int)),
        Direction::South => assert(cross((1, 0, 0), (0, 1, 0)) == (0int, 0int, 1int)),
        Direction::East => assert(cross((0, 0, -1), (0, 1, 0)) == (1int, 0int, 0int)),
        Direction::West => assert(cross((0, 0, 1), (0, 1, 0)) == (-1int, 0int, 0int)),
    }
}


/// Whether the number `v` may stand at place `i` of a buffer for a grid of
/// the given size. The places repeat every five: an `x` between 0 and the
/// width, a `y` between 0 and 1, a `z` between 0 and the height, then a `u`
/// and a `v` inside the atlas.
pub open spec fn spec_fits(i: int, v: int, width: nat, height: nat) -> bool {
    let place = i % 5;
    if place == 0 {
        0 <= v <= width
    } else if place == 1 {
        0 <= v <= 1
    } else if place == 2 {
        0 <= v <= height
    } else {
        0 <= v <= ATLAS_TILES
    }
}

/// Whether a run of whole vertices lies inside the box of a grid of the
/// given size and inside the atlas.
pub open spec fn spec_in_box(s: Seq<int>, width: nat, height: nat) -> bool {
    &&& s.len() % 5 == 0
    &&& forall|i: int| 0 <= i < s.len() ==> spec_fits(i, #[trigger] s[i], width, height)
}

/// Two runs of whole vertices that lie inside the box, one after the other,
/// lie inside the box.
proof fn lemma_in_box_concat(a: Seq<int>, b: Seq<int>, width: nat, height: nat)
    requires
        spec_in_box(a, width, height),
        spec_in_box(b, width, height),
    ensures
        spec_in_box(a + b, width, height),
{
    let s = a + b;
    assert forall|i: int| 0 <= i < s.len() implies spec_fits(i, #[trigger] s[i], width, height) by {
        if i >= a.len() {
            assert(s[i] == b[i - a.len()]);
            assert((i - a.len()) % 5 == i % 5);
        }
    }
}

/// A face of a cell of the grid lies inside the box.
proof fn lemma_face_in_box(
    x: int,
    y: int,
    d: Direction,
    rect: AtlasRect,
    width: nat,
    height: nat,
)
    requires
        0 <= x < width,
        0 <= y < height,
        rect.wf(),
    ensures
        spec_in_box(spec_face(x, y, d, rect), width, height),
{
    assert forall|k: int| 0 <= k < 4 implies spec_in_box(
        #[trigger] spec_vertex(x, y, d, rect, k),
        width,
        height,
    ) by {
        lemma_face_winding(d, rect, k);
    }
    let v0 = spec_vertex(x, y, d, rect, 0);
    let v1 = spec_vertex(x, y, d, rect, 1);
    let v2 = spec_vertex(x, y, d, rect, 2);
    let v3 = spec_vertex(x, y, d, rect, 3);
    lemma_in_box_concat(v0, v1, width, height);
    lemma_in_box_concat(v0 + v1, v2, width, height);
    lemma_in_box_concat(v0 + v1 + v2, v2, width, height);
    lemma_in_box_concat(v0 + v1 + v2 + v2, v3, width, height);
    lemma_in_box_concat(v0 + v1 + v2 + v2 + v3, v0, width, height);
}

/// The first `k` faces of a cell of the grid lie inside the box.
proof fn lemma_cell_faces_in_box(g: GridView, x: int, y: int, k: nat)
    requires
        g.in_bounds(x, y),
    ensures
        spec_in_box(spec_cell_faces(g, x, y, k), g.width, g.height),
    decreases k,
{
    if k > 0 {
        lemma_cell_faces_in_box(g, x, y, (k - 1) as nat);
        let d = Direction::spec_from_index(k - 1);
        let face = BlockFace::spec_select(g.cell(x, y).variant, d);
        lemma_tiles_are_disjoint(face, face);
        lemma_face_in_box(x, y, d, face.spec_rect(), g.width, g.height);
        lemma_in_box_concat(
            spec_cell_faces(g, x, y, (k - 1) as nat),
            spec_face_slot(g, x, y, d),
            g.width,
            g.height,
        );
    }
}

/// The first `n` cells of a row of the grid lie inside the box.
proof fn lemma_row_mesh_in_box(g: GridView, y: int, n: nat)
    requires
        0 <= y < g.height,
        n <= g.width,
    ensures
        spec_in_box(spec_row_mesh(g, y, n), g.width, g.height),
    decreases n,
{
    if n > 0 {
        lemma_row_mesh_in_box(g, y, (n - 1) as nat);
        lemma_cell_faces_in_box(g, n - 1, y, 6);
        lemma_in_box_concat(
            spec_row_mesh(g, y, (n - 1) as nat),
            spec_cell_mesh(g, n - 1, y),
            g.width,
            g.height,
        );
    }
}

/// The first `m` rows of the grid lie inside the box.
proof fn lemma_rows_mesh_in_box(g: GridView, m: nat)
    requires
        m <= g.height,
    ensures
        spec_in_box(spec_rows_mesh(g, m), g.width, g.height),
    decreases m,
{
    if m > 0 {
        lemma_rows_mesh_in_box(g, (m - 1) as nat);
        lemma_row_mesh_in_box(g, m - 1, g.width);
        lemma_in_box_concat(
            spec_rows_mesh(g, (m - 1) as nat),
            spec_row_mesh(g, m - 1, g.width),
            g.width,
            g.height,
        );
    }
}

/// Every vertex of the buffer lies inside the box of the grid, from
/// `(0, 0, 0)` to `(width, 1, height)`, and every texture coordinate inside
/// the atlas. On a well-formed grid no number of the buffer is therefore
/// negative or greater than [`MAX_CELLS`], so each is a whole number that a
/// 32-bit float holds exactly.
pub proof fn lemma_mesh_lies_in_the_box(g: GridView)
    ensures
        spec_in_box(spec_mesh(g), g.width, g.height),
        g.dims_ok() ==> forall|i: int|
            0 <= i < spec_mesh(g).len() ==> 0 <= #[trigger] spec_mesh(g)[i] <= MAX_CELLS,
{
    lemma_rows_mesh_in_box(g, g.height);
    if g.dims_ok() {
        lemma_sides_bounded(g);
        assert forall|i: int| 0 <= i < spec_mesh(g).len() implies 0 <= #[trigger] spec_mesh(g)[i]
            <= MAX_CELLS by {
            assert(spec_fits(i, spec_mesh(g)[i], g.width, g.height));
        }
    }
}

} // verus!
