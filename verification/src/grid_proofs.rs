//! Why the operations on a grid keep it well-formed.

use vstd::prelude::*;
use crate::cell::{Cell, CellVariant, Position};
use crate::direction::Direction;
use crate::grid::{GridView, MAX_CELLS};

verus! {

/// Inside the grid, the place of a cell among the cells is inside the cells.
pub proof fn lemma_index_in_range(width: nat, height: nat, x: int, y: int)
    requires
        0 <= x < width,
        0 <= y < height,
    ensures
        0 <= y * width + x < width * height,
{
    assert(0 <= y * width && y * width + width <= width * height) by (nonlinear_arith)
        requires
            0 <= y < height,
            0 < width,
    ;
}

/// Two cells of the grid that have the same place among the cells are in
/// the same column and row.
pub proof fn lemma_index_injective(width: nat, x1: int, y1: int, x2: int, y2: int)
    requires
        0 <= x1 < width,
        0 <= x2 < width,
        y1 * width + x1 == y2 * width + x2,
    ensures
        x1 == x2,
        y1 == y2,
{
    assert(y1 == y2) by (nonlinear_arith)
        requires
            0 <= x1 < width,
            0 <= x2 < width,
            y1 * width + x1 == y2 * width + x2,
    ;
}

/// Neither side of a grid is longer than the grid has cells.
pub proof fn lemma_sides_bounded(g: GridView)
    requires
        g.dims_ok(),
    ensures
        g.width <= MAX_CELLS,
        g.height <= MAX_CELLS,
{
    assert(g.width <= g.width * g.height && g.height <= g.width * g.height) by (nonlinear_arith)
        requires
            0 < g.width,
            0 < g.height,
    ;
}

/// Two positions on the grid whose cells have the same place among the
/// cells are the same position.
pub proof fn lemma_place_injective(g: GridView, p: Position, q: Position)
    requires
        g.holds(p),
        g.holds(q),
        g.place(p) == g.place(q),
    ensures
        p == q,
{
    lemma_index_injective(g.width, p.x as int, p.y as int, q.x as int, q.y as int);
}

/// Telling the creature where to head keeps the grid well-formed.
pub proof fn lemma_steer_keeps_wf(g: GridView, d: Direction)
    requires
        g.wf(),
    ensures
        g.spec_steer(d).wf(),
{
    let n = g.spec_steer(d);
    assert forall|x: int, y: int|
        n.in_bounds(x, y) && (#[trigger] n.cell(x, y)).occupied && n.cell(x, y).variant
            != CellVariant::Food implies n.body.contains(Position { x: x as u32, y: y as u32 }) by {
        assert(n.cell(x, y) == g.cell(x, y));
    }
}

/// Putting food on the grid keeps it well-formed.
pub proof fn lemma_place_food_keeps_wf(g: GridView, x: int, y: int)
    requires
        g.wf(),
    ensures
        g.spec_place_food(x, y).wf(),
{
    if g.spec_takes_food(x, y) {
        let n = g.spec_place_food(x, y);
        lemma_index_in_range(g.width, g.height, x, y);
        // The food goes where nothing was, so no segment is written over.
        assert forall|i: int| 0 <= i < n.body.len() implies n.at(#[trigger] n.body[i])
            == Cell::spec_filled(
            if i == 0 {
                CellVariant::Head
            } else {
                CellVariant::Body
            },
        ) by {
            let p = g.body[i];
            lemma_index_in_range(g.width, g.height, p.x as int, p.y as int);
            assert(g.at(p).occupied);
        }
        // The only cell that changed holds food now.
        assert forall|a: int, b: int|
            n.in_bounds(a, b) && (#[trigger] n.cell(a, b)).occupied && n.cell(a, b).variant
                != CellVariant::Food implies n.body.contains(
            Position { x: a as u32, y: b as u32 },
        ) by {
            lemma_index_in_range(g.width, g.height, a, b);
            assert(n.cell(a, b) == g.cell(a, b));
        }
    }
}

/// Moving the head to a vacant cell of the grid and drawing in the tail
/// keeps the grid well-formed.
pub proof fn lemma_advance_keeps_wf(g: GridView, target: Position)
    requires
        g.wf(),
        g.body.len() > 0,
        g.holds(target),
        !g.at(target).occupied,
    ensures
        g.spec_advance(target).wf(),
{
    let n = g.spec_advance(target);
    let len = g.body.len() as int;
    let head = g.body[0];
    let tail = g.body[len - 1];
    lemma_sides_bounded(g);
    lemma_index_in_range(g.width, g.height, head.x as int, head.y as int);
    lemma_index_in_range(g.width, g.height, tail.x as int, tail.y as int);
    lemma_index_in_range(g.width, g.height, target.x as int, target.y as int);
    // The new creature is the target followed by all the old segments but
    // the tail.
    assert(n.body.len() == len);
    assert(n.body[0] == target);
    assert forall|k: int| 1 <= k < len implies #[trigger] n.body[k] == g.body[k - 1] by {}
    // The target was vacant, so it is none of the old segments.
    assert forall|i: int, j: int| 0 <= i < j < n.body.len() implies #[trigger] n.body[i]
        != #[trigger] n.body[j] by {
        assert(g.at(g.body[j - 1]).occupied);
    }
    // Of the three cells that were written, a segment that stays can only
    // be the old head, which is body now.
    assert forall|i: int| 0 <= i < n.body.len() implies n.at(#[trigger] n.body[i])
        == Cell::spec_filled(
        if i == 0 {
            CellVariant::Head
        } else {
            CellVariant::Body
        },
    ) by {
        if i > 0 {
            let p = g.body[i - 1];
            lemma_index_in_range(g.width, g.height, p.x as int, p.y as int);
            assert(g.at(p).occupied);
            assert(p != tail);
            if g.place(p) == g.place(tail) {
                lemma_place_injective(g, p, tail);
            }
            if i > 1 && g.place(p) == g.place(head) {
                lemma_place_injective(g, p, head);
            }
        }
    }
    // Whatever is occupied and is not food is the new head, the old head,
    // or a segment that was there before and is not the old tail.
    assert forall|x: int, y: int|
        n.in_bounds(x, y) && (#[trigger] n.cell(x, y)).occupied && n.cell(x, y).variant
            != CellVariant::Food implies n.body.contains(Position { x: x as u32, y: y as u32 }) by {
        let p = Position { x: x as u32, y: y as u32 };
        let at = g.index(x, y);
        lemma_index_in_range(g.width, g.height, x, y);
        if at == g.place(target) {
            lemma_place_injective(g, p, target);
            assert(n.body[0] == p);
        } else if at == g.place(tail) {
            assert(!n.cell(x, y).occupied);
        } else if at == g.place(head) {
            lemma_place_injective(g, p, head);
            assert(n.body[1] == p);
        } else {
            assert(n.cell(x, y) == g.cell(x, y));
            let k = choose|k: int| 0 <= k < g.body.len() && g.body[k] == p;
            assert(n.body[k + 1] == p);
        }
    }
}

/// Moving the head onto food and leaving the tail where it was keeps the
/// grid well-formed.
pub proof fn lemma_grow_keeps_wf(g: GridView, target: Position)
    requires
        g.wf(),
        g.body.len() > 0,
        g.holds(target),
        g.at(target) == Cell::spec_filled(CellVariant::Food),
    ensures
        g.spec_grow(target).wf(),
{
    let n = g.spec_grow(target);
    let len = g.body.len() as int;
    let head = g.body[0];
    lemma_sides_bounded(g);
    lemma_index_in_range(g.width, g.height, head.x as int, head.y as int);
    lemma_index_in_range(g.width, g.height, target.x as int, target.y as int);
    // The new creature is the target followed by all the old segments.
    assert(n.body.len() == len + 1);
    assert(n.body[0] == target);
    assert forall|k: int| 1 <= k <= len implies #[trigger] n.body[k] == g.body[k - 1] by {}
    // The target held food, so it is none of the old segments.
    assert forall|i: int, j: int| 0 <= i < j < n.body.len() implies #[trigger] n.body[i]
        != #[trigger] n.body[j] by {
        assert(g.at(g.body[j - 1]).variant != CellVariant::Food);
    }
    // Of the two cells that were written, an old segment can only be the
    // old head, which is body now.
    assert forall|i: int| 0 <= i < n.body.len() implies n.at(#[trigger] n.body[i])
        == Cell::spec_filled(
        if i == 0 {
            CellVariant::Head
        } else {
            CellVariant::Body
        },
    ) by {
        if i > 0 {
            let p = g.body[i - 1];
            lemma_index_in_range(g.width, g.height, p.x as int, p.y as int);
            assert(g.at(p).variant != CellVariant::Food);
            if i > 1 && g.place(p) == g.place(head) {
                lemma_place_injective(g, p, head);
            }
        }
    }
    // Whatever is occupied and is not food is the new head or a segment
    // that was there before.
    assert forall|x: int, y: int|
        n.in_bounds(x, y) && (#[trigger] n.cell(x, y)).occupied && n.cell(x, y).variant
            != CellVariant::Food implies n.body.contains(Position { x: x as u32, y: y as u32 }) by {
        let p = Position { x: x as u32, y: y as u32 };
        let at = g.index(x, y);
        lemma_index_in_range(g.width, g.height, x, y);
        if at == g.place(target) {
            lemma_place_injective(g, p, target);
            assert(n.body[0] == p);
        } else if at == g.place(head) {
            lemma_place_injective(g, p, head);
            assert(n.body[1] == p);
        } else {
            assert(n.cell(x, y) == g.cell(x, y));
            let k = choose|k: int| 0 <= k < g.body.len() && g.body[k] == p;
            assert(n.body[k + 1] == p);
        }
    }
}

} // verus!
