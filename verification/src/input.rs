//! Input controller: translates the input state polled once per tick into
//! grid mutations and simulation-rate changes, in a fixed priority order.
//! Reset overrides everything else for the tick; the rate keys move the
//! target by one step each; painting only ever adds life, and an
//! out-of-bounds cursor is silently ignored.

use vstd::prelude::*;
use crate::grid::Grid;
use crate::rate::decrease_fps;
use crate::rate::decreased_fps;
use crate::rate::increase_fps;
use crate::rate::increased_fps;

verus! {

/// The input state sampled once per tick. Held keys and buttons are
/// re-polled levels, not edge-triggered events: a held key applies on
/// every tick it is sampled.
#[derive(Clone, Copy)]
pub struct InputState {
    /// The "reset" key or the "reset" mouse button is held.
    pub reset_held: bool,
    /// The "increase rate" key is held.
    pub increase_held: bool,
    /// The "decrease rate" key is held.
    pub decrease_held: bool,
    /// The "paint" mouse button is held.
    pub paint_held: bool,
    /// The cursor position in grid coordinates, if the surface reports one.
    pub cursor: Option<(usize, usize)>,
}

/// The simulation-rate after one tick's rate keys: one step up capped at
/// `MAX_FPS` when "increase" is held, then one step down floored at
/// `MIN_FPS` when "decrease" is held.
pub open spec fn fps_after(fps: int, increase_held: bool, decrease_held: bool) -> int {
    let up = if increase_held {
        increased_fps(fps)
    } else {
        fps
    };
    if decrease_held {
        decreased_fps(up)
    } else {
        up
    }
}

/// The grid after one tick's painting: the cell under the cursor forced
/// alive when the paint button is held and the cursor is in bounds;
/// otherwise the grid unchanged.
pub open spec fn painted(g: Seq<u8>, w: int, h: int, input: InputState) -> Seq<u8> {
    match input.cursor {
        Some(pos) => if input.paint_held && pos.0 < w && pos.1 < h {
            g.update(pos.1 * w + pos.0, 1u8)
        } else {
            g
        },
        None => g,
    }
}

/// Applies one tick of input, in priority order: a held reset reseeds the
/// grid and overrides everything below for this tick; otherwise the rate
/// keys move the frames-per-second target and a held paint button forces
/// the cell under an in-bounds cursor alive. Returns whether the rate
/// indicator must be refreshed.
pub fn apply_input(grid: &mut Grid, fps: &mut usize, input: &InputState) -> (rate_changed: bool)
    requires
        old(grid).wf(),
    ensures
        final(grid).wf(),
        final(grid).w() == old(grid).w(),
        final(grid).h() == old(grid).h(),
        input.reset_held ==> *final(fps) == *old(fps),
        !input.reset_held ==> *final(fps) == fps_after(
            *old(fps) as int,
            input.increase_held,
            input.decrease_held,
        ),
        !input.reset_held ==> final(grid)@ == painted(
            old(grid)@,
            old(grid).w(),
            old(grid).h(),
            *input,
        ),
        rate_changed == (!input.reset_held && (input.increase_held || input.decrease_held)),
{
    let mut rate_changed = false;
    if input.reset_held {
        grid.reset();
    } else {
        if input.increase_held {
            *fps = increase_fps(*fps);
            rate_changed = true;
        }
        if input.decrease_held {
            *fps = decrease_fps(*fps);
            rate_changed = true;
        }
        if input.paint_held {
            match input.cursor {
                Some(pos) => {
                    grid.set_alive(pos.0, pos.1);
                },
                None => {},
            }
        }
    }
    rate_changed
}

} // verus!
