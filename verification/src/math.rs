//! Scalars, vectors and orientations.

pub mod algebra;
pub mod bounds;
pub mod convert;
pub mod laws;
pub mod length;
pub mod model;
pub mod orientation;
pub mod range;
pub mod round_trip;
pub mod scalar;
pub mod vector;
