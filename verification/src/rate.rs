//! Simulation-rate control: an integer frames-per-second target, moved in
//! fixed steps and clamped to the closed range `[MIN_FPS, MAX_FPS]`.

use vstd::prelude::*;

verus! {

pub const MIN_FPS: usize = 5;

pub const MAX_FPS: usize = 250;

pub const FPS_STEP: usize = 5;

/// The target after one "increase rate" operation: up one step, capped
/// at `MAX_FPS`.
pub open spec fn increased_fps(fps: int) -> int {
    if fps + FPS_STEP <= MAX_FPS {
        fps + FPS_STEP
    } else {
        MAX_FPS as int
    }
}

/// The target after one "decrease rate" operation: down one step, floored
/// at `MIN_FPS`.
pub open spec fn decreased_fps(fps: int) -> int {
    if fps >= MIN_FPS + FPS_STEP {
        fps - FPS_STEP
    } else {
        MIN_FPS as int
    }
}

pub fn increase_fps(fps: usize) -> (r: usize)
    ensures
        r == increased_fps(fps as int),
{
    if fps <= MAX_FPS - FPS_STEP {
        fps + FPS_STEP
    } else {
        MAX_FPS
    }
}

pub fn decrease_fps(fps: usize) -> (r: usize)
    ensures
        r == decreased_fps(fps as int),
{
    if fps >= MIN_FPS + FPS_STEP {
        fps - FPS_STEP
    } else {
        MIN_FPS
    }
}

/// Rate clamp law: from any starting value, one increase lands at or
/// below `MAX_FPS` and one decrease lands at or above `MIN_FPS`; since
/// every further operation starts from such a value, repeated increases
/// never exceed `MAX_FPS` and repeated decreases never drop below
/// `MIN_FPS`.
pub proof fn lemma_rate_clamp(fps: int)
    ensures
        increased_fps(fps) <= MAX_FPS,
        MIN_FPS <= decreased_fps(fps),
{
}

} // verus!
