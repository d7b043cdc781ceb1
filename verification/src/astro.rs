//! Frames of reference of simulated bodies.

pub mod frame;
