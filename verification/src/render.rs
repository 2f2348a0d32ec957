//! Render bridge: the pure mapping from cells to pixel colors. The whole
//! pixel buffer is recomputed from the grid every tick; it carries no
//! state of its own.

use vstd::prelude::*;
use crate::grid::Grid;

verus! {

pub const ALIVE_COLOR: u32 = 0x6A66A3;

pub const DEAD_COLOR: u32 = 0xDDD8B8;

/// The color of one cell: the accent color when alive, the background
/// color otherwise.
pub open spec fn color_of(c: u8) -> u32 {
    if c == 1 {
        ALIVE_COLOR
    } else {
        DEAD_COLOR
    }
}

/// The pixel buffer of a whole grid, cell by cell.
pub open spec fn pixels_of(g: Seq<u8>) -> Seq<u32> {
    Seq::new(g.len(), |i: int| color_of(g[i]))
}

/// Rewrites a fresh pixel buffer from the grid, one color per cell, in
/// the grid's own row-major order.
pub fn render(g: &Grid) -> (r: Vec<u32>)
    ensures
        r@ == pixels_of(g@),
{
    let cells = g.cells();
    let total = cells.len();
    let mut pix: Vec<u32> = Vec::new();
    let mut i: usize = 0;
    while i < total
        invariant
            cells@ == g@,
            total == g@.len(),
            i <= total,
            pix@.len() == i,
            forall|j: int| 0 <= j < i ==> pix@[j] == pixels_of(g@)[j],
        decreases total - i,
    {
        let c = cells[i];
        if c == 1 {
            pix.push(ALIVE_COLOR);
        } else {
            pix.push(DEAD_COLOR);
        }
        i = i + 1;
    }
    proof {
        assert(pix@ =~= pixels_of(g@));
    }
    pix
}

/// Render idempotence law: the pixel buffer is a pure function of the
/// cells, so two renderings of the same grid are identical.
pub proof fn lemma_render_idempotent(g: Seq<u8>, p1: Seq<u32>, p2: Seq<u32>)
    requires
        p1 == pixels_of(g),
        p2 == pixels_of(g),
    ensures
        p1 == p2,
{
}

} // verus!
