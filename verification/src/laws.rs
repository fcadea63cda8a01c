//! General laws of the engine, stated and proved over the same spec
//! functions that the executable contracts use. Each law speaks of
//! [`Grid::next_cell`], the per-cell meaning of one generation advance, so
//! together with `tick`'s contract it holds of every advanced grid.

use vstd::prelude::*;

use crate::grid::CellState;
use crate::grid::Grid;
use crate::grid::count_alive;

verus! {

/// 1 for an Alive cell, 0 for a Dead one.
spec fn alive_weight(c: CellState) -> int {
    if c is Alive {
        1int
    } else {
        0int
    }
}

/// The count of an eight-entry sequence is the sum of its entries' weights.
proof fn lemma_count_alive_8(s: Seq<CellState>)
    requires
        s.len() == 8,
    ensures
        count_alive(s) == alive_weight(s[0]) + alive_weight(s[1]) + alive_weight(s[2])
            + alive_weight(s[3]) + alive_weight(s[4]) + alive_weight(s[5]) + alive_weight(s[6])
            + alive_weight(s[7]),
{
    reveal_with_fuel(count_alive, 9);
}

/// An interior cell's neighbour count is the sum of the weights of its
/// eight Moore neighbours.
proof fn lemma_interior_count(g: Grid, x: int, y: int)
    requires
        g.interior(x, y),
    ensures
        g.alive_neighbor_count(x, y) == alive_weight(g.cell(x - 1, y - 1)) + alive_weight(
            g.cell(x, y - 1),
        ) + alive_weight(g.cell(x + 1, y - 1)) + alive_weight(g.cell(x + 1, y)) + alive_weight(
            g.cell(x + 1, y + 1),
        ) + alive_weight(g.cell(x, y + 1)) + alive_weight(g.cell(x - 1, y + 1)) + alive_weight(
            g.cell(x - 1, y),
        ),
{
    lemma_count_alive_8(g.neighbor_states(x, y));
}

/// A cell on the outermost ring sees no neighbours, so its count is 0.
proof fn lemma_ring_count(g: Grid, x: int, y: int)
    requires
        !g.interior(x, y),
    ensures
        g.alive_neighbor_count(x, y) == 0,
{
    assert(count_alive(Seq::<CellState>::empty()) == 0);
}

/// Underpopulation: a live cell that sees fewer than two live neighbours is
/// Dead after one generation advance.
pub proof fn lemma_underpopulation(g: Grid, x: int, y: int)
    requires
        g.in_bounds(x, y),
        g.cell(x, y) is Alive,
        g.alive_neighbor_count(x, y) < 2,
    ensures
        g.next_cell(x, y) is Dead,
{
}

/// A lone interior live cell dies: if none of its eight Moore neighbours is
/// Alive, a generation advance leaves it Dead.
pub proof fn lemma_lonely_cell_dies(g: Grid, x: int, y: int)
    requires
        g.interior(x, y),
        g.cell(x, y) is Alive,
        !(g.cell(x - 1, y - 1) is Alive),
        !(g.cell(x, y - 1) is Alive),
        !(g.cell(x + 1, y - 1) is Alive),
        !(g.cell(x + 1, y) is Alive),
        !(g.cell(x + 1, y + 1) is Alive),
        !(g.cell(x, y + 1) is Alive),
        !(g.cell(x - 1, y + 1) is Alive),
        !(g.cell(x - 1, y) is Alive),
    ensures
        g.next_cell(x, y) is Dead,
{
    lemma_interior_count(g, x, y);
}

/// Stamping a non-empty pattern at the origin whose rows each span the
/// whole grid determines every cell: the stamped state equals the pattern.
pub proof fn lemma_stamp_origin_exact(g: Grid, pattern: Seq<Vec<CellState>>)
    requires
        pattern.len() == g.rows,
        forall|k: int| 0 <= k < pattern.len() ==> pattern[k]@.len() == g.columns,
    ensures
        forall|j: int, i: int| #![auto]
            g.in_bounds(j, i) ==> g.stamp_cell(0, 0, pattern, j, i) == pattern[i]@[j],
{
}

/// The boundary rule shields the outermost ring from birth: a dead cell on
/// the ring sees no neighbours, is never re-examined with a count of three,
/// and so stays Dead after a generation advance, whatever surrounds it.
pub proof fn lemma_ring_cell_never_born(g: Grid, x: int, y: int)
    requires
        g.in_bounds(x, y),
        !g.interior(x, y),
        g.cell(x, y) is Dead,
    ensures
        g.next_cell(x, y) is Dead,
{
    lemma_ring_count(g, x, y);
}

/// The boundary rule also starves the ring: a live cell on the outermost
/// ring sees no neighbours and dies on every generation advance.
pub proof fn lemma_ring_cell_dies(g: Grid, x: int, y: int)
    requires
        g.in_bounds(x, y),
        !g.interior(x, y),
        g.cell(x, y) is Alive,
    ensures
        g.next_cell(x, y) is Dead,
{
    lemma_ring_count(g, x, y);
}

/// One cell of a grid holding exactly a 2x2 block of live cells keeps its
/// state over a generation advance.
proof fn lemma_block_next(g: Grid, bx: int, by: int, a: int, b: int)
    requires
        g.interior(bx, by),
        g.interior(bx + 1, by + 1),
        forall|p: int, q: int| #![trigger g.cell(p, q)]
            g.in_bounds(p, q) ==> (g.cell(p, q) is Alive <==> (bx <= p < bx + 2 && by <= q < by
                + 2)),
        g.in_bounds(a, b),
    ensures
        g.next_cell(a, b) == g.cell(a, b),
{
    if bx <= a < bx + 2 && by <= b < by + 2 {
        lemma_interior_count(g, a, b);
        assert(g.alive_neighbor_count(a, b) == 3);
    } else if g.interior(a, b) {
        lemma_interior_count(g, a, b);
        assert(g.alive_neighbor_count(a, b) != 3);
    } else {
        lemma_ring_count(g, a, b);
    }
}

/// Still life: a 2x2 block of live cells, all interior, with every other
/// cell dead, is left unchanged by a generation advance — each block cell
/// sees exactly three live neighbours and survives, and no dead cell sees
/// more than two. Applying this to each successive generation keeps the
/// block indefinitely.
pub proof fn lemma_block_still_life(g: Grid, bx: int, by: int)
    requires
        g.interior(bx, by),
        g.interior(bx + 1, by + 1),
        forall|p: int, q: int| #![trigger g.cell(p, q)]
            g.in_bounds(p, q) ==> (g.cell(p, q) is Alive <==> (bx <= p < bx + 2 && by <= q < by
                + 2)),
    ensures
        forall|a: int, b: int| #![trigger g.next_cell(a, b)]
            g.in_bounds(a, b) ==> g.next_cell(a, b) == g.cell(a, b),
{
    assert forall|a: int, b: int| g.in_bounds(a, b) implies g.next_cell(a, b) == g.cell(a, b) by {
        lemma_block_next(g, bx, by, a, b);
    }
}

/// One cell of a grid holding exactly a horizontal three-cell line centred
/// on (cx, cy): after a generation advance the cell is Alive exactly when
/// it belongs to the vertical three-cell line centred on the same point.
proof fn lemma_blinker_h_next(g: Grid, cx: int, cy: int, a: int, b: int)
    requires
        g.interior(cx - 1, cy),
        g.interior(cx + 1, cy),
        g.interior(cx, cy - 1),
        g.interior(cx, cy + 1),
        forall|p: int, q: int| #![trigger g.cell(p, q)]
            g.in_bounds(p, q) ==> (g.cell(p, q) is Alive <==> (q == cy && cx - 1 <= p <= cx + 1)),
        g.in_bounds(a, b),
    ensures
        g.next_cell(a, b) is Alive <==> (a == cx && cy - 1 <= b <= cy + 1),
{
    if a == cx && (b == cy - 1 || b == cy + 1) {
        lemma_interior_count(g, a, b);
        assert(g.alive_neighbor_count(a, b) == 3);
        assert(g.alive_interior(cx, cy));
        assert(g.rechecked(a, b));
    } else if g.interior(a, b) {
        lemma_interior_count(g, a, b);
    } else {
        lemma_ring_count(g, a, b);
    }
}

/// One cell of a grid holding exactly a vertical three-cell line centred
/// on (cx, cy): after a generation advance the cell is Alive exactly when
/// it belongs to the horizontal three-cell line centred on the same point.
proof fn lemma_blinker_v_next(g: Grid, cx: int, cy: int, a: int, b: int)
    requires
        g.interior(cx - 1, cy),
        g.interior(cx + 1, cy),
        g.interior(cx, cy - 1),
        g.interior(cx, cy + 1),
        forall|p: int, q: int| #![trigger g.cell(p, q)]
            g.in_bounds(p, q) ==> (g.cell(p, q) is Alive <==> (p == cx && cy - 1 <= q <= cy + 1)),
        g.in_bounds(a, b),
    ensures
        g.next_cell(a, b) is Alive <==> (b == cy && cx - 1 <= a <= cx + 1),
{
    if b == cy && (a == cx - 1 || a == cx + 1) {
        lemma_interior_count(g, a, b);
        assert(g.alive_neighbor_count(a, b) == 3);
        assert(g.alive_interior(cx, cy));
        assert(g.rechecked(a, b));
    } else if g.interior(a, b) {
        lemma_interior_count(g, a, b);
    } else {
        lemma_ring_count(g, a, b);
    }
}

/// A horizontal three-cell line ("blinker") centred on (cx, cy), fully
/// interior together with its vertical counterpart, turns into that
/// vertical line after one generation advance: the two end cells die of
/// underpopulation, the centre survives, and the cells above and below the
/// centre are born.
pub proof fn lemma_blinker_horizontal_to_vertical(g: Grid, cx: int, cy: int)
    requires
        g.interior(cx - 1, cy),
        g.interior(cx + 1, cy),
        g.interior(cx, cy - 1),
        g.interior(cx, cy + 1),
        forall|p: int, q: int| #![trigger g.cell(p, q)]
            g.in_bounds(p, q) ==> (g.cell(p, q) is Alive <==> (q == cy && cx - 1 <= p <= cx + 1)),
    ensures
        forall|a: int, b: int| #![trigger g.next_cell(a, b)]
            g.in_bounds(a, b) ==> (g.next_cell(a, b) is Alive <==> (a == cx && cy - 1 <= b <= cy
                + 1)),
{
    assert forall|a: int, b: int|
        g.in_bounds(a, b) implies (g.next_cell(a, b) is Alive <==> (a == cx && cy - 1 <= b <= cy
        + 1)) by {
        lemma_blinker_h_next(g, cx, cy, a, b);
    }
}

/// A vertical three-cell line centred on (cx, cy), fully interior together
/// with its horizontal counterpart, turns into that horizontal line after
/// one generation advance.
pub proof fn lemma_blinker_vertical_to_horizontal(g: Grid, cx: int, cy: int)
    requires
        g.interior(cx - 1, cy),
        g.interior(cx + 1, cy),
        g.interior(cx, cy - 1),
        g.interior(cx, cy + 1),
        forall|p: int, q: int| #![trigger g.cell(p, q)]
            g.in_bounds(p, q) ==> (g.cell(p, q) is Alive <==> (p == cx && cy - 1 <= q <= cy + 1)),
    ensures
        forall|a: int, b: int| #![trigger g.next_cell(a, b)]
            g.in_bounds(a, b) ==> (g.next_cell(a, b) is Alive <==> (b == cy && cx - 1 <= a <= cx
                + 1)),
{
    assert forall|a: int, b: int|
        g.in_bounds(a, b) implies (g.next_cell(a, b) is Alive <==> (b == cy && cx - 1 <= a <= cx
        + 1)) by {
        lemma_blinker_v_next(g, cx, cy, a, b);
    }
}

/// The blinker oscillates with period two. If g1 holds the generation after
/// g0 and g2 the generation after g1 — cell for cell, as `tick` ensures —
/// and g0 holds exactly a fully interior horizontal blinker centred on
/// (cx, cy), then g1 holds exactly the vertical blinker centred on the same
/// middle cell, and g2 the horizontal line again.
pub proof fn lemma_blinker_oscillates(g0: Grid, g1: Grid, g2: Grid, cx: int, cy: int)
    requires
        g1.columns == g0.columns,
        g1.rows == g0.rows,
        g2.columns == g1.columns,
        g2.rows == g1.rows,
        g0.interior(cx - 1, cy),
        g0.interior(cx + 1, cy),
        g0.interior(cx, cy - 1),
        g0.interior(cx, cy + 1),
        forall|p: int, q: int| #![trigger g0.cell(p, q)]
            g0.in_bounds(p, q) ==> (g0.cell(p, q) is Alive <==> (q == cy && cx - 1 <= p <= cx
                + 1)),
        forall|p: int, q: int| #![trigger g1.cell(p, q)]
            g0.in_bounds(p, q) ==> g1.cell(p, q) == g0.next_cell(p, q),
        forall|p: int, q: int| #![trigger g2.cell(p, q)]
            g1.in_bounds(p, q) ==> g2.cell(p, q) == g1.next_cell(p, q),
    ensures
        forall|p: int, q: int| #![trigger g1.cell(p, q)]
            g1.in_bounds(p, q) ==> (g1.cell(p, q) is Alive <==> (p == cx && cy - 1 <= q <= cy
                + 1)),
        forall|p: int, q: int| #![trigger g2.cell(p, q)]
            g2.in_bounds(p, q) ==> (g2.cell(p, q) is Alive <==> (q == cy && cx - 1 <= p <= cx
                + 1)),
{
    lemma_blinker_horizontal_to_vertical(g0, cx, cy);
    assert forall|p: int, q: int| #![trigger g1.cell(p, q)]
        g1.in_bounds(p, q) implies (g1.cell(p, q) is Alive <==> (p == cx && cy - 1 <= q <= cy
        + 1)) by {
        assert(g0.in_bounds(p, q));
        assert(g1.cell(p, q) == g0.next_cell(p, q));
    }
    lemma_blinker_vertical_to_horizontal(g1, cx, cy);
    assert forall|p: int, q: int| #![trigger g2.cell(p, q)]
        g2.in_bounds(p, q) implies (g2.cell(p, q) is Alive <==> (q == cy && cx - 1 <= p <= cx
        + 1)) by {
        assert(g1.in_bounds(p, q));
        assert(g2.cell(p, q) == g1.next_cell(p, q));
    }
}

/// A fully dead grid stays fully dead after a generation advance; applying
/// this to each successive generation keeps it dead indefinitely.
pub proof fn lemma_all_dead_stable(g: Grid)
    requires
        forall|x: int, y: int| #![trigger g.cell(x, y)] g.in_bounds(x, y) ==> g.cell(x, y) is Dead,
    ensures
        forall|x: int, y: int| #![trigger g.next_cell(x, y)]
            g.in_bounds(x, y) ==> g.next_cell(x, y) is Dead,
{
    assert forall|x: int, y: int| g.in_bounds(x, y) implies g.next_cell(x, y) is Dead by {
        assert(!g.rechecked(x, y));
    }
}

} // verus!

