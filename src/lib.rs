//! A grid-movement model of a snake: a head-first path of grid-aligned
//! waypoints, a fractional progress counter that drives smooth interpolation
//! between grid cells, a heading that refuses exact reversals, and a queue of
//! growth markers that lengthen the body one segment at a time.
pub mod geometry;
pub mod laws;
pub mod random;
pub mod simulation;

pub use geometry::{Direction, Point};
pub use simulation::{AdvanceResult, Config, Simulation, UNITS_PER_CELL};
