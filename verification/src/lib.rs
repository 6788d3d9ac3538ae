//! Timing and event primitives for interactive render loops: a
//! fixed-timestep update scheduler that decouples the simulation
//! update rate from the variable frame rate, and a window state
//! tracker that folds a stream of platform events into a consistent,
//! query-able snapshot of one window.

pub mod update;
pub mod window;
