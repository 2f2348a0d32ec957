//! Compute step: the Game of Life transition rule. Each cell's next state
//! depends only on a snapshot of the current grid, so the whole step reads
//! one grid and writes a fresh one — never in place.

use vstd::prelude::*;
use vstd::arithmetic::div_mod::lemma_fundamental_div_mod_converse;
use crate::grid::Grid;
use crate::grid::is_cell;
use crate::grid::lemma_row_major_index;

verus! {

/// Toroidal wrap of a coordinate that is off by less than one grid extent
/// on either side.
pub open spec fn wrap(v: int, m: int) -> int
    recommends
        0 < m,
        -m <= v < 2 * m,
{
    if v < 0 {
        v + m
    } else if m <= v {
        v - m
    } else {
        v
    }
}

/// The cell at toroidal coordinates `(x, y)`: both coordinates wrap.
pub open spec fn cell_on(g: Seq<u8>, w: int, h: int, x: int, y: int) -> u8
    recommends
        0 < w,
        0 < h,
        g.len() == w * h,
        -w <= x < 2 * w,
        -h <= y < 2 * h,
{
    g[wrap(y, h) * w + wrap(x, w)]
}

/// Number of alive cells among the 8 toroidally wrapped neighbors of
/// `(x, y)`: the offsets `(dx, dy)` range over `{-1, 0, 1}²` minus `(0, 0)`.
pub open spec fn neighbor_count(g: Seq<u8>, w: int, h: int, x: int, y: int) -> int
    recommends
        0 < w,
        0 < h,
        g.len() == w * h,
        0 <= x < w,
        0 <= y < h,
{
    cell_on(g, w, h, x - 1, y - 1) + cell_on(g, w, h, x, y - 1) + cell_on(g, w, h, x + 1, y - 1)
        + cell_on(g, w, h, x - 1, y) + cell_on(g, w, h, x + 1, y) + cell_on(g, w, h, x - 1, y + 1)
        + cell_on(g, w, h, x, y + 1) + cell_on(g, w, h, x + 1, y + 1)
}

/// The rule: an alive cell survives exactly with 2 or 3 alive neighbors;
/// a dead cell is born exactly with 3; every other combination yields dead.
pub open spec fn next_cell(cur: u8, alive_neighbors: int) -> u8 {
    if cur == 1 {
        if alive_neighbors == 2 || alive_neighbors == 3 {
            1u8
        } else {
            0u8
        }
    } else {
        if alive_neighbors == 3 {
            1u8
        } else {
            0u8
        }
    }
}

/// The next generation of a whole grid, cell by cell.
pub open spec fn next_grid(g: Seq<u8>, w: int, h: int) -> Seq<u8>
    recommends
        0 < w,
        0 < h,
        g.len() == w * h,
{
    Seq::new(g.len(), |i: int| next_cell(g[i], neighbor_count(g, w, h, i % w, i / w)))
}

/// Counts the alive cells among the 8 toroidally wrapped neighbors of the
/// in-bounds cell `(x, y)`.
pub fn alive_neighbors(g: &Grid, x: usize, y: usize) -> (n: u8)
    requires
        g.wf(),
        x < g.w(),
        y < g.h(),
    ensures
        n as int == neighbor_count(g@, g.w(), g.h(), x as int, y as int),
        n <= 8,
{
    let w = g.width();
    let h = g.height();
    let xm1: usize = if x == 0 { w - 1 } else { x - 1 };
    let xp1: usize = if x + 1 == w { 0 } else { x + 1 };
    let ym1: usize = if y == 0 { h - 1 } else { y - 1 };
    let yp1: usize = if y + 1 == h { 0 } else { y + 1 };
    g.get(xm1, ym1) + g.get(x, ym1) + g.get(xp1, ym1) + g.get(xm1, y) + g.get(xp1, y) + g.get(
        xm1,
        yp1,
    ) + g.get(x, yp1) + g.get(xp1, yp1)
}

/// One generation: every cell of the result follows the rule applied to a
/// snapshot of the input grid, so the result never depends on its own cells.
pub fn step(g: &Grid) -> (r: Grid)
    requires
        g.wf(),
    ensures
        r.wf(),
        r.w() == g.w(),
        r.h() == g.h(),
        r@ == next_grid(g@, g.w(), g.h()),
{
    let w = g.width();
    let h = g.height();
    let ghost target = next_grid(g@, g.w(), g.h());
    let mut cells: Vec<u8> = Vec::new();
    let mut y: usize = 0;
    while y < h
        invariant
            g.wf(),
            w == g.w(),
            h == g.h(),
            target == next_grid(g@, g.w(), g.h()),
            y <= h,
            cells@.len() == y * w,
            forall|j: int| 0 <= j < cells@.len() ==> cells@[j] == target[j],
        decreases h - y,
    {
        let mut x: usize = 0;
        proof {
            lemma_row_major_index(w as int, h as int, 0, y as int);
        }
        while x < w
            invariant
                g.wf(),
                w == g.w(),
                h == g.h(),
                target == next_grid(g@, g.w(), g.h()),
                y < h,
                x <= w,
                cells@.len() == y * w + x,
                forall|j: int| 0 <= j < cells@.len() ==> cells@[j] == target[j],
            decreases w - x,
        {
            let n = alive_neighbors(g, x, y);
            let cur = g.get(x, y);
            let c: u8 = if cur == 1 {
                if n == 2 || n == 3 {
                    1
                } else {
                    0
                }
            } else {
                if n == 3 {
                    1
                } else {
                    0
                }
            };
            proof {
                let i = y * (w as int) + x;
                lemma_row_major_index(w as int, h as int, x as int, y as int);
                lemma_fundamental_div_mod_converse(i, w as int, y as int, x as int);
                assert(target[i] == next_cell(g@[i], neighbor_count(g@, g.w(), g.h(), x as int, y as int)));
            }
            cells.push(c);
            x = x + 1;
        }
        proof {
            assert((y + 1) * w == y * w + w) by (nonlinear_arith);
        }
        y = y + 1;
    }
    proof {
        assert(h * w == w * h) by (nonlinear_arith);
        assert(cells@ =~= target);
    }
    Grid::from_parts(cells, w, h)
}

/// Toroidal wrap law at the corner: the cell at `(0, 0)` counts the cell
/// at `(w - 1, h - 1)` among its neighbors — its upper-left neighbor wraps
/// around both edges. In particular an alive opposite corner contributes
/// to the corner's neighbor count.
pub proof fn lemma_toroidal_wrap(g: Seq<u8>, w: int, h: int)
    requires
        0 < w,
        0 < h,
        g.len() == w * h,
        forall|i: int| 0 <= i < g.len() ==> is_cell(#[trigger] g[i]),
    ensures
        cell_on(g, w, h, -1, -1) == g[(h - 1) * w + (w - 1)],
        g[(h - 1) * w + (w - 1)] == 1 ==> neighbor_count(g, w, h, 0, 0) >= 1,
{
    assert(wrap(-1, w) == w - 1);
    assert(wrap(-1, h) == h - 1);
}

/// The transition rule restated per cell, over the whole-grid step: with
/// 2 or 3 alive neighbors an alive cell stays alive; with exactly 3 a dead
/// cell becomes alive; every other combination yields a dead cell.
pub proof fn lemma_life_rule(g: Seq<u8>, w: int, h: int, x: int, y: int)
    requires
        0 < w,
        0 < h,
        g.len() == w * h,
        0 <= x < w,
        0 <= y < h,
    ensures
        g[y * w + x] == 1 && (neighbor_count(g, w, h, x, y) == 2 || neighbor_count(g, w, h, x, y)
            == 3) ==> next_grid(g, w, h)[y * w + x] == 1,
        g[y * w + x] != 1 && neighbor_count(g, w, h, x, y) == 3 ==> next_grid(g, w, h)[y * w + x]
            == 1,
        !((g[y * w + x] == 1 && (neighbor_count(g, w, h, x, y) == 2 || neighbor_count(
            g,
            w,
            h,
            x,
            y,
        ) == 3)) || (g[y * w + x] != 1 && neighbor_count(g, w, h, x, y) == 3)) ==> next_grid(
            g,
            w,
            h,
        )[y * w + x] == 0,
{
    let i = y * w + x;
    lemma_row_major_index(w, h, x, y);
    lemma_fundamental_div_mod_converse(i, w, y, x);
    assert(next_grid(g, w, h)[i] == next_cell(g[i], neighbor_count(g, w, h, x, y)));
}

} // verus!
