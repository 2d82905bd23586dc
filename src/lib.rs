//! Core of a side-scrolling "flappy" game: player physics, obstacles with a
//! narrowing gap, and the Menu / Playing / End session machine.
//!
//! Vertical positions and speeds are fixed-point integers counted in tenths
//! of a cell (`CELL` units per cell); elapsed time is counted in microseconds.
mod random;

pub mod player;
pub mod obstacle;
pub mod session;

