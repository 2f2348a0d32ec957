//! Grid state: a flat array of cells addressed row-major, with toroidal
//! coordinate wrapping handled by the transition rule. Cells are bytes,
//! 0 for dead and 1 for alive.

use vstd::prelude::*;
use vstd::pervasive::VecAdditionalExecFns;

verus! {

/// A cell byte is valid when it is 0 (dead) or 1 (alive).
pub open spec fn is_cell(c: u8) -> bool {
    c == 0 || c == 1
}

/// Reseeding makes each cell alive with probability
/// `ALIVE_NUMERATOR / ALIVE_DENOMINATOR`.
pub const ALIVE_NUMERATOR: u32 = 1;

pub const ALIVE_DENOMINATOR: u32 = 5;

/// Relies on rand's `RngExt::random_ratio` on the thread-local generator:
/// a Bernoulli draw that is true with probability `numerator/denominator`,
/// guaranteed false when the numerator is 0 and guaranteed true when the
/// numerator equals the denominator. It panics only when the denominator
/// is 0 or the numerator exceeds it, which the precondition rules out.
#[verifier::external_body]
fn random_ratio_bool(numerator: u32, denominator: u32) -> (r: bool)
    requires
        0 < denominator,
        numerator <= denominator,
    ensures
        numerator == 0 ==> r == false,
        numerator == denominator ==> r == true,
{
    rand::RngExt::random_ratio(&mut rand::rng(), numerator, denominator)
}

/// A cell's row-major index is in range whenever its coordinates are.
pub proof fn lemma_row_major_index(w: int, h: int, x: int, y: int)
    requires
        0 <= x < w,
        0 <= y < h,
    ensures
        0 <= y * w + x < w * h,
{
    assert(0 <= y * w + x < w * h) by (nonlinear_arith)
        requires
            0 <= x < w,
            0 <= y < h,
    ;
}

/// The grid: `width * height` cells, row-major, cell `(x, y)` at index
/// `y * width + x`. The dimensions are fixed once the grid is built.
pub struct Grid {
    cells: Vec<u8>,
    width: usize,
    height: usize,
}

impl View for Grid {
    type V = Seq<u8>;

    closed spec fn view(&self) -> Seq<u8> {
        self.cells@
    }
}

impl Grid {
    pub closed spec fn w(self) -> int {
        self.width as int
    }

    pub closed spec fn h(self) -> int {
        self.height as int
    }

    /// Well-formedness: positive dimensions, every index representable,
    /// exactly `width * height` cells, each either 0 or 1.
    pub open spec fn wf(self) -> bool {
        &&& 0 < self.w()
        &&& 0 < self.h()
        &&& self.w() * self.h() <= usize::MAX
        &&& self@.len() == self.w() * self.h()
        &&& forall|i: int| 0 <= i < self@.len() ==> is_cell(#[trigger] self@[i])
    }

    pub fn width(&self) -> (r: usize)
        ensures
            r == self.w(),
    {
        self.width
    }

    pub fn height(&self) -> (r: usize)
        ensures
            r == self.h(),
    {
        self.height
    }

    /// A grid of the given dimensions with every cell dead.
    pub fn new(width: usize, height: usize) -> (g: Grid)
        requires
            0 < width,
            0 < height,
            width * height <= usize::MAX,
        ensures
            g.wf(),
            g.w() == width,
            g.h() == height,
            forall|i: int| 0 <= i < g@.len() ==> g@[i] == 0u8,
    {
        let total: usize = width * height;
        let mut cells: Vec<u8> = Vec::new();
        let mut i: usize = 0;
        while i < total
            invariant
                i <= total,
                cells@.len() == i,
                forall|j: int| 0 <= j < i ==> cells@[j] == 0u8,
            decreases total - i,
        {
            cells.push(0u8);
            i = i + 1;
        }
        Grid { cells, width, height }
    }

    /// Wraps existing cell bytes as a grid, if they form one: positive
    /// dimensions, a matching length, and only 0/1 bytes are accepted.
    pub fn from_cells(cells: Vec<u8>, width: usize, height: usize) -> (r: Option<Grid>)
        ensures
            r is Some <==> (0 < width && 0 < height && width * height <= usize::MAX
                && cells@.len() == width * height
                && (forall|i: int| 0 <= i < cells@.len() ==> is_cell(#[trigger] cells@[i]))),
            r is Some ==> {
                &&& r->Some_0.wf()
                &&& r->Some_0.w() == width
                &&& r->Some_0.h() == height
                &&& r->Some_0@ == cells@
            },
    {
        if width == 0 || height == 0 {
            return None;
        }
        match width.checked_mul(height) {
            None => None,
            Some(total) => {
                if cells.len() != total {
                    return None;
                }
                let mut i: usize = 0;
                while i < total
                    invariant
                        i <= total,
                        cells@.len() == total,
                        forall|j: int| 0 <= j < i ==> is_cell(#[trigger] cells@[j]),
                    decreases total - i,
                {
                    let c = cells[i];
                    if c != 0u8 && c != 1u8 {
                        assert(!is_cell(cells@[i as int]));
                        return None;
                    }
                    i = i + 1;
                }
                Some(Grid { cells, width, height })
            },
        }
    }

    /// The cell at in-bounds coordinates `(x, y)`.
    pub fn get(&self, x: usize, y: usize) -> (c: u8)
        requires
            self.wf(),
            x < self.w(),
            y < self.h(),
        ensures
            c == self@[y * self.w() + x],
            is_cell(c),
    {
        proof {
            lemma_row_major_index(self.w(), self.h(), x as int, y as int);
        }
        let idx: usize = y * self.width + x;
        self.cells[idx]
    }

    /// Forces one cell to alive. Out-of-bounds coordinates are ignored:
    /// the grid is left exactly as it was.
    pub fn set_alive(&mut self, x: usize, y: usize)
        requires
            old(self).wf(),
        ensures
            final(self).wf(),
            final(self).w() == old(self).w(),
            final(self).h() == old(self).h(),
            x < old(self).w() && y < old(self).h() ==> final(self)@ == old(self)@.update(
                y * old(self).w() + x,
                1u8,
            ),
            !(x < old(self).w() && y < old(self).h()) ==> final(self)@ == old(self)@,
    {
        if x < self.width && y < self.height {
            proof {
                lemma_row_major_index(self.w(), self.h(), x as int, y as int);
            }
            let idx: usize = y * self.width + x;
            self.cells.set(idx, 1u8);
        }
    }

    /// Reseeds every cell independently, alive with probability
    /// `ALIVE_NUMERATOR / ALIVE_DENOMINATOR`. Dimensions are unchanged.
    pub fn reset(&mut self)
        requires
            old(self).wf(),
        ensures
            final(self).wf(),
            final(self).w() == old(self).w(),
            final(self).h() == old(self).h(),
    {
        let total: usize = self.cells.len();
        let mut cells: Vec<u8> = Vec::new();
        let mut i: usize = 0;
        while i < total
            invariant
                i <= total,
                cells@.len() == i,
                forall|j: int| 0 <= j < i ==> is_cell(#[trigger] cells@[j]),
            decreases total - i,
        {
            let alive = random_ratio_bool(ALIVE_NUMERATOR, ALIVE_DENOMINATOR);
            if alive {
                cells.push(1u8);
            } else {
                cells.push(0u8);
            }
            i = i + 1;
        }
        self.cells = cells;
    }

    /// Assembles a grid from parts already known to form one.
    pub(crate) fn from_parts(cells: Vec<u8>, width: usize, height: usize) -> (g: Grid)
        requires
            0 < width,
            0 < height,
            width * height <= usize::MAX,
            cells@.len() == width * height,
            forall|i: int| 0 <= i < cells@.len() ==> is_cell(#[trigger] cells@[i]),
        ensures
            g.wf(),
            g.w() == width,
            g.h() == height,
            g@ == cells@,
    {
        Grid { cells, width, height }
    }

    /// The cell bytes, row-major, for handing to an external compute or
    /// display surface.
    pub fn cells(&self) -> (r: &Vec<u8>)
        ensures
            r@ == self@,
    {
        &self.cells
    }
}

} // verus!
