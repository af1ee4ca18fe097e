//! A sparse, unbounded Conway's Game of Life simulator core: live-cell set,
//! synchronous automaton step, fixed-timestep scheduling, and the camera
//! transform between screen pixels and world cell coordinates.

pub mod automaton;
pub mod config;
pub mod coord;
pub mod live_set;
pub mod rle;
pub mod scheduler;
pub mod state;
pub mod state_mgmt;
pub mod utils;
