//! Frame loop: the per-tick orchestration — apply input, compute the next
//! generation from a snapshot of the edited grid, render the new grid,
//! and make it current — plus the two-state run/terminate machine driven
//! by the display surface.

use vstd::prelude::*;
use crate::grid::Grid;
use crate::input::InputState;
use crate::input::apply_input;
use crate::input::fps_after;
use crate::input::painted;
use crate::render::pixels_of;
use crate::render::render;
use crate::step::next_grid;
use crate::step::step;

verus! {

/// The frame loop's two states.
#[derive(Clone, Copy, PartialEq, Eq, Structural, Debug)]
pub enum LoopState {
    Running,
    Terminated,
}

/// The loop runs exactly while the display surface is open and the exit
/// key is not held; it terminates as soon as either fails.
pub fn next_loop_state(open: bool, exit_held: bool) -> (s: LoopState)
    ensures
        s is Running <==> (open && !exit_held),
{
    if open && !exit_held {
        LoopState::Running
    } else {
        LoopState::Terminated
    }
}

/// The simulation state the frame loop owns: the current grid and the
/// frames-per-second target.
pub struct Simulation {
    pub grid: Grid,
    pub fps: usize,
}

impl Simulation {
    pub open spec fn wf(self) -> bool {
        self.grid.wf()
    }

    /// A simulation over a freshly reseeded grid of the given dimensions.
    pub fn new(width: usize, height: usize, fps: usize) -> (s: Simulation)
        requires
            0 < width,
            0 < height,
            width * height <= usize::MAX,
        ensures
            s.wf(),
            s.grid.w() == width,
            s.grid.h() == height,
            s.fps == fps,
    {
        let mut grid = Grid::new(width, height);
        grid.reset();
        Simulation { grid, fps }
    }

    /// One tick, in order: apply the polled input to the current grid and
    /// rate, compute the next generation from a snapshot of the edited
    /// grid, make it current, and render it. Returns the pixel buffer of
    /// the new grid and whether the rate indicator must be refreshed.
    pub fn tick(&mut self, input: &InputState) -> (r: (Vec<u32>, bool))
        requires
            old(self).wf(),
        ensures
            final(self).wf(),
            final(self).grid.w() == old(self).grid.w(),
            final(self).grid.h() == old(self).grid.h(),
            input.reset_held ==> final(self).fps == old(self).fps,
            !input.reset_held ==> final(self).fps == fps_after(
                old(self).fps as int,
                input.increase_held,
                input.decrease_held,
            ),
            !input.reset_held ==> final(self).grid@ == next_grid(
                painted(old(self).grid@, old(self).grid.w(), old(self).grid.h(), *input),
                old(self).grid.w(),
                old(self).grid.h(),
            ),
            r.0@ == pixels_of(final(self).grid@),
            r.1 == (!input.reset_held && (input.increase_held || input.decrease_held)),
    {
        let rate_changed = apply_input(&mut self.grid, &mut self.fps, input);
        let next = step(&self.grid);
        self.grid = next;
        let pixels = render(&self.grid);
        (pixels, rate_changed)
    }
}

} // verus!
