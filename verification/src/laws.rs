//! Laws of the evolution step, proved once and for all over the
//! mathematical model: dimension preservation, no spontaneous birth,
//! boundary handling, and the classic still-life, oscillator and glider
//! behaviours.

use vstd::prelude::*;

use crate::rules::{alive_at, neighbor_count, rect, step, step_n};

verus! {

/// Every cell of the matrix is dead.
pub open spec fn all_dead(g: Seq<Seq<bool>>) -> bool {
    forall|r: int, c: int| 0 <= r < g.len() && 0 <= c < g[r].len() ==> !(#[trigger] g[r][c])
}

/// One step preserves the dimensions of a rectangular matrix exactly.
pub proof fn lemma_step_preserves_dims(g: Seq<Seq<bool>>, w: int, h: int)
    requires
        rect(g, w, h),
    ensures
        rect(step(g), w, h),
{
    assert forall|r: int| 0 <= r < step(g).len() implies (#[trigger] step(g)[r]).len() == w by {
        assert(g[r].len() == w);
    }
}

/// No spontaneous birth: stepping an all-dead grid of any positive size
/// yields an all-dead grid of identical dimensions.
pub proof fn lemma_all_dead_stays_dead(g: Seq<Seq<bool>>, w: int, h: int)
    requires
        rect(g, w, h),
        1 <= w,
        1 <= h,
        all_dead(g),
    ensures
        rect(step(g), w, h),
        all_dead(step(g)),
{
    lemma_step_preserves_dims(g, w, h);
    assert forall|x: int, y: int| !alive_at(g, x, y) by {
        if 0 <= x < g.len() && 0 <= y < g[x].len() {
            assert(!g[x][y]);
        }
    }
    assert forall|r: int, c: int|
        0 <= r < step(g).len() && 0 <= c < step(g)[r].len() implies !(#[trigger] step(g)[r][c]) by {
        assert(g[r].len() == w);
        assert(neighbor_count(g, r, c) == 0);
    }
}

/// The matrix is dead everywhere except a 2×2 block whose top-left cell
/// sits at `(r0, c0)`.
pub open spec fn only_live_block(g: Seq<Seq<bool>>, r0: int, c0: int) -> bool {
    forall|r: int, c: int|
        0 <= r < g.len() && 0 <= c < g[r].len() ==> (#[trigger] g[r][c] <==> (r0 <= r < r0 + 2
            && c0 <= c < c0 + 2))
}

/// One step leaves a 2×2 block in an otherwise-dead grid unchanged: each
/// block cell has exactly three live neighbors, and every other cell at
/// most two.
pub proof fn lemma_block_one_step(g: Seq<Seq<bool>>, w: int, h: int, r0: int, c0: int)
    requires
        rect(g, w, h),
        0 <= r0,
        r0 + 2 <= h,
        0 <= c0,
        c0 + 2 <= w,
        only_live_block(g, r0, c0),
    ensures
        step(g) == g,
{
    lemma_step_preserves_dims(g, w, h);
    assert forall|x: int, y: int| #[trigger]
        alive_at(g, x, y) <==> (r0 <= x < r0 + 2 && c0 <= y < c0 + 2) by {
        if 0 <= x < h {
            assert(g[x].len() == w);
        }
    }
    assert forall|r: int, c: int| 0 <= r < h && 0 <= c < w implies #[trigger] step(g)[r][c]
        == g[r][c] by {
        assert(g[r].len() == w);
    }
    assert(step(g) =~~= g);
}

/// A 2×2 block in an otherwise-dead grid is a still life: any number of
/// steps leaves the grid exactly as it was.
pub proof fn lemma_block_still_life(g: Seq<Seq<bool>>, w: int, h: int, r0: int, c0: int, n: nat)
    requires
        rect(g, w, h),
        0 <= r0,
        r0 + 2 <= h,
        0 <= c0,
        c0 + 2 <= w,
        only_live_block(g, r0, c0),
    ensures
        step_n(g, n) == g,
    decreases n,
{
    if n > 0 {
        lemma_block_still_life(g, w, h, r0, c0, (n - 1) as nat);
        lemma_block_one_step(g, w, h, r0, c0);
    }
}

/// The matrix is dead everywhere except a horizontal run of three live
/// cells whose leftmost cell sits at `(r0, c0)`.
pub open spec fn only_live_hblinker(g: Seq<Seq<bool>>, r0: int, c0: int) -> bool {
    forall|r: int, c: int|
        0 <= r < g.len() && 0 <= c < g[r].len() ==> (#[trigger] g[r][c] <==> (r == r0 && c0 <= c
            < c0 + 3))
}

/// The matrix is dead everywhere except a vertical run of three live
/// cells whose topmost cell sits at `(r0, c0)`.
pub open spec fn only_live_vblinker(g: Seq<Seq<bool>>, r0: int, c0: int) -> bool {
    forall|r: int, c: int|
        0 <= r < g.len() && 0 <= c < g[r].len() ==> (#[trigger] g[r][c] <==> (c == c0 && r0 <= r
            < r0 + 3))
}

/// One step turns the horizontal blinker into the vertical blinker through
/// the same center cell: the two end cells die, the center survives, and
/// the cells above and below the center are born.
pub proof fn lemma_blinker_h_to_v(g: Seq<Seq<bool>>, w: int, h: int, r0: int, c0: int)
    requires
        rect(g, w, h),
        1 <= r0,
        r0 + 1 < h,
        0 <= c0,
        c0 + 3 <= w,
        only_live_hblinker(g, r0, c0),
    ensures
        rect(step(g), w, h),
        only_live_vblinker(step(g), r0 - 1, c0 + 1),
{
    lemma_step_preserves_dims(g, w, h);
    assert forall|x: int, y: int| #[trigger]
        alive_at(g, x, y) <==> (x == r0 && c0 <= y < c0 + 3) by {
        if 0 <= x < h {
            assert(g[x].len() == w);
        }
    }
    assert forall|r: int, c: int|
        0 <= r < h && 0 <= c < w implies (#[trigger] step(g)[r][c] <==> (c == c0 + 1 && r0 - 1
            <= r < r0 + 2)) by {
        assert(g[r].len() == w);
    }
}

/// One step turns the vertical blinker into the horizontal blinker through
/// the same center cell.
pub proof fn lemma_blinker_v_to_h(g: Seq<Seq<bool>>, w: int, h: int, r0: int, c0: int)
    requires
        rect(g, w, h),
        0 <= r0,
        r0 + 3 <= h,
        1 <= c0,
        c0 + 1 < w,
        only_live_vblinker(g, r0, c0),
    ensures
        rect(step(g), w, h),
        only_live_hblinker(step(g), r0 + 1, c0 - 1),
{
    lemma_step_preserves_dims(g, w, h);
    assert forall|x: int, y: int| #[trigger]
        alive_at(g, x, y) <==> (y == c0 && r0 <= x < r0 + 3) by {
        if 0 <= x < h {
            assert(g[x].len() == w);
        }
    }
    assert forall|r: int, c: int|
        0 <= r < h && 0 <= c < w implies (#[trigger] step(g)[r][c] <==> (r == r0 + 1 && c0 - 1
            <= c < c0 + 2)) by {
        assert(g[r].len() == w);
    }
}

/// The blinker is a period-two oscillator: in an otherwise-dead grid with
/// one free row above and below, a horizontal three-cell run becomes the
/// vertical run through its center after one step, and a second step
/// restores the starting grid exactly.
pub proof fn lemma_blinker_period_two(g: Seq<Seq<bool>>, w: int, h: int, r0: int, c0: int)
    requires
        rect(g, w, h),
        1 <= r0,
        r0 + 1 < h,
        0 <= c0,
        c0 + 3 <= w,
        only_live_hblinker(g, r0, c0),
    ensures
        only_live_vblinker(step(g), r0 - 1, c0 + 1),
        step(step(g)) == g,
{
    lemma_blinker_h_to_v(g, w, h, r0, c0);
    lemma_blinker_v_to_h(step(g), w, h, r0 - 1, c0 + 1);
    assert forall|r: int, c: int| 0 <= r < h && 0 <= c < w implies #[trigger] step(step(g))[r][c]
        == g[r][c] by {
        assert(g[r].len() == w);
        assert(step(step(g))[r].len() == w);
    }
    assert(step(step(g)) =~~= g);
}

/// The five live cells of the standard glider, in the phase seeded at the
/// start: the 3×3 box with top-left corner `(a, b)` holds a single live
/// cell on its top row at `(a, b+1)`, one at `(a+1, b+2)`, and its whole
/// bottom row `(a+2, b)`..`(a+2, b+2)` live.
pub open spec fn glider0_cell(a: int, b: int, r: int, c: int) -> bool {
    ||| (r == a && c == b + 1)
    ||| (r == a + 1 && c == b + 2)
    ||| (r == a + 2 && b <= c <= b + 2)
}

/// The glider one step later.
pub open spec fn glider1_cell(a: int, b: int, r: int, c: int) -> bool {
    ||| (r == a + 1 && (c == b || c == b + 2))
    ||| (r == a + 2 && (c == b + 1 || c == b + 2))
    ||| (r == a + 3 && c == b + 1)
}

/// The glider two steps later.
pub open spec fn glider2_cell(a: int, b: int, r: int, c: int) -> bool {
    ||| (r == a + 1 && c == b + 2)
    ||| (r == a + 2 && (c == b || c == b + 2))
    ||| (r == a + 3 && (c == b + 1 || c == b + 2))
}

/// The glider three steps later.
pub open spec fn glider3_cell(a: int, b: int, r: int, c: int) -> bool {
    ||| (r == a + 1 && c == b + 1)
    ||| (r == a + 2 && (c == b + 2 || c == b + 3))
    ||| (r == a + 3 && (c == b + 1 || c == b + 2))
}

/// The matrix is dead everywhere except the glider in its seeded phase.
pub open spec fn only_glider0(g: Seq<Seq<bool>>, a: int, b: int) -> bool {
    forall|r: int, c: int|
        0 <= r < g.len() && 0 <= c < g[r].len() ==> (#[trigger] g[r][c] <==> glider0_cell(
            a,
            b,
            r,
            c,
        ))
}

/// The matrix is dead everywhere except the glider one step in.
pub open spec fn only_glider1(g: Seq<Seq<bool>>, a: int, b: int) -> bool {
    forall|r: int, c: int|
        0 <= r < g.len() && 0 <= c < g[r].len() ==> (#[trigger] g[r][c] <==> glider1_cell(
            a,
            b,
            r,
            c,
        ))
}

/// The matrix is dead everywhere except the glider two steps in.
pub open spec fn only_glider2(g: Seq<Seq<bool>>, a: int, b: int) -> bool {
    forall|r: int, c: int|
        0 <= r < g.len() && 0 <= c < g[r].len() ==> (#[trigger] g[r][c] <==> glider2_cell(
            a,
            b,
            r,
            c,
        ))
}

/// The matrix is dead everywhere except the glider three steps in.
pub open spec fn only_glider3(g: Seq<Seq<bool>>, a: int, b: int) -> bool {
    forall|r: int, c: int|
        0 <= r < g.len() && 0 <= c < g[r].len() ==> (#[trigger] g[r][c] <==> glider3_cell(
            a,
            b,
            r,
            c,
        ))
}

/// One step takes the seeded glider to its second phase.
pub proof fn lemma_glider_step0(g: Seq<Seq<bool>>, w: int, h: int, a: int, b: int)
    requires
        rect(g, w, h),
        0 <= a,
        a + 3 < h,
        0 <= b,
        b + 3 < w,
        only_glider0(g, a, b),
    ensures
        rect(step(g), w, h),
        only_glider1(step(g), a, b),
{
    lemma_step_preserves_dims(g, w, h);
    assert forall|x: int, y: int| #[trigger] alive_at(g, x, y) <==> glider0_cell(a, b, x, y) by {
        if 0 <= x < h {
            assert(g[x].len() == w);
        }
    }
    assert forall|r: int, c: int|
        0 <= r < h && 0 <= c < w implies (#[trigger] step(g)[r][c] <==> glider1_cell(
        a,
        b,
        r,
        c,
    )) by {
        assert(g[r].len() == w);
    }
}

/// One step takes the glider from its second phase to its third.
pub proof fn lemma_glider_step1(g: Seq<Seq<bool>>, w: int, h: int, a: int, b: int)
    requires
        rect(g, w, h),
        0 <= a,
        a + 3 < h,
        0 <= b,
        b + 3 < w,
        only_glider1(g, a, b),
    ensures
        rect(step(g), w, h),
        only_glider2(step(g), a, b),
{
    lemma_step_preserves_dims(g, w, h);
    assert forall|x: int, y: int| #[trigger] alive_at(g, x, y) <==> glider1_cell(a, b, x, y) by {
        if 0 <= x < h {
            assert(g[x].len() == w);
        }
    }
    assert forall|r: int, c: int|
        0 <= r < h && 0 <= c < w implies (#[trigger] step(g)[r][c] <==> glider2_cell(
        a,
        b,
        r,
        c,
    )) by {
        assert(g[r].len() == w);
    }
}

/// One step takes the glider from its third phase to its fourth.
pub proof fn lemma_glider_step2(g: Seq<Seq<bool>>, w: int, h: int, a: int, b: int)
    requires
        rect(g, w, h),
        0 <= a,
        a + 3 < h,
        0 <= b,
        b + 3 < w,
        only_glider2(g, a, b),
    ensures
        rect(step(g), w, h),
        only_glider3(step(g), a, b),
{
    lemma_step_preserves_dims(g, w, h);
    assert forall|x: int, y: int| #[trigger] alive_at(g, x, y) <==> glider2_cell(a, b, x, y) by {
        if 0 <= x < h {
            assert(g[x].len() == w);
        }
    }
    assert forall|r: int, c: int|
        0 <= r < h && 0 <= c < w implies (#[trigger] step(g)[r][c] <==> glider3_cell(
        a,
        b,
        r,
        c,
    )) by {
        assert(g[r].len() == w);
    }
}

/// One step takes the glider from its fourth phase back to the seeded
/// shape, translated one cell down and one cell right.
pub proof fn lemma_glider_step3(g: Seq<Seq<bool>>, w: int, h: int, a: int, b: int)
    requires
        rect(g, w, h),
        0 <= a,
        a + 3 < h,
        0 <= b,
        b + 3 < w,
        only_glider3(g, a, b),
    ensures
        rect(step(g), w, h),
        only_glider0(step(g), a + 1, b + 1),
{
    lemma_step_preserves_dims(g, w, h);
    assert forall|x: int, y: int| #[trigger] alive_at(g, x, y) <==> glider3_cell(a, b, x, y) by {
        if 0 <= x < h {
            assert(g[x].len() == w);
        }
    }
    assert forall|r: int, c: int|
        0 <= r < h && 0 <= c < w implies (#[trigger] step(g)[r][c] <==> glider0_cell(
        a + 1,
        b + 1,
        r,
        c,
    )) by {
        assert(g[r].len() == w);
    }
}

/// The glider invariant: in an otherwise-dead grid with a free row below
/// and a free column to the right of its 3×3 box, four steps reproduce the
/// seeded glider shape translated by one row down and one column right,
/// with every other cell dead.
pub proof fn lemma_glider_moves(g: Seq<Seq<bool>>, w: int, h: int, a: int, b: int)
    requires
        rect(g, w, h),
        0 <= a,
        a + 3 < h,
        0 <= b,
        b + 3 < w,
        only_glider0(g, a, b),
    ensures
        rect(step_n(g, 4), w, h),
        only_glider0(step_n(g, 4), a + 1, b + 1),
{
    lemma_glider_step0(g, w, h, a, b);
    lemma_glider_step1(step(g), w, h, a, b);
    lemma_glider_step2(step(step(g)), w, h, a, b);
    lemma_glider_step3(step(step(step(g))), w, h, a, b);
    assert(step_n(g, 0) == g);
    assert(step_n(g, 1) == step(step_n(g, 0)));
    assert(step_n(g, 2) == step(step_n(g, 1)));
    assert(step_n(g, 3) == step(step_n(g, 2)));
    assert(step_n(g, 4) == step(step_n(g, 3)));
}

/// A corner cell has only three neighbor slots: the count at `(0, 0)` is
/// made of the three in-grid slots alone, for every grid — the five
/// off-grid slots are excluded, not wrapped around.
pub proof fn lemma_corner_neighbor_slots(g: Seq<Seq<bool>>, w: int, h: int)
    requires
        rect(g, w, h),
        1 <= w,
        1 <= h,
    ensures
        neighbor_count(g, 0, 0) == (if alive_at(g, 0, 1) {
            1int
        } else {
            0
        }) + (if alive_at(g, 1, 0) {
            1int
        } else {
            0
        }) + (if alive_at(g, 1, 1) {
            1int
        } else {
            0
        }),
{
}

/// A lone live cell in the corner of a square grid has zero live
/// neighbors — the off-grid slots do not count — and dies next generation.
pub proof fn lemma_lone_corner_cell_dies(g: Seq<Seq<bool>>, n: int)
    requires
        rect(g, n, n),
        1 <= n,
        forall|r: int, c: int|
            0 <= r < g.len() && 0 <= c < g[r].len() ==> (#[trigger] g[r][c] <==> (r == 0 && c
                == 0)),
    ensures
        neighbor_count(g, 0, 0) == 0,
        !step(g)[0][0],
{
    assert(g[0].len() == n);
    lemma_corner_neighbor_slots(g, n, n);
    if n > 1 {
        assert(g[1].len() == n);
        assert(!g[0][1]);
        assert(!g[1][0]);
        assert(!g[1][1]);
    }
}

} // verus!
