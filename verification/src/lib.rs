//! Conway's Game of Life on a toroidal grid.
//!
//! The library holds the verified core of an interactive Life visualizer:
//! the grid state with its reseed and paint operations, the transition
//! rule applied one generation at a time, the input controller that turns
//! polled input into grid and rate changes, the clamped simulation-rate
//! arithmetic, the mapping from cells to pixel colors, and the per-tick
//! orchestration of all of these. Windowing and device dispatch stay
//! outside; they exchange plain values with this crate.

pub mod grid;
pub mod input;
pub mod rate;
pub mod render;
pub mod sim;
pub mod step;
pub mod title;
