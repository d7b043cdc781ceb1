//! Fixed-point 3D vectors, rotations and frames of reference whose absolute
//! precision does not depend on the distance from the world origin.
//!
//! A coordinate is a [storage scalar](math::scalar::FixOrigin): 64 bits, 16
//! of them fractional, so that one raw step is 2^-16 distance units at the
//! origin and at 10^13 units from it alike. A rotation multiplies
//! coordinates by the components of a unit quaternion; in the storage scalar
//! those products would lose what the coordinates hold, so a rotation is
//! computed in the [wide scalar](math::scalar::FixWide), 128 bits with 62
//! fractional, and only its result is cut back.
//!
//! * [`math::scalar`]: the two scalars and their arithmetic.
//! * [`math::convert`]: whole numbers and scalars as scalars.
//! * [`math::vector`]: the two kinds of vector, what they have in common,
//!   and the rotation.
//! * [`math::orientation`]: unit quaternions.
//! * [`math::model`]: the mathematical models that the contracts speak of.
//! * [`astro::frame`]: poses, twists, and the conversion from the world
//!   frame to the frame of a viewer.
//!
//! What holds of every input is proved in [`math::laws`],
//! [`math::bounds`], [`math::length`], [`math::round_trip`] and
//! [`astro::frame`]: that the zero vector and the identity rotate exactly,
//! that every coordinate up to
//! [`MAX_COORD`](math::scalar::MAX_COORD) can be rotated, how well a
//! rotation keeps the length of a vector, how near a vector comes back
//! from a rotation and its inverse, and that what a viewer sees depends on
//! the offset alone.
//!
//! Products, quotients and changes of width are those of the `fixed` crate,
//! called on raw values; what this crate takes them to compute is stated at
//! the head of [`math::scalar`]'s private functions and is not proved here.
//! Nothing in this crate is floating point: a caller that holds
//! orientations as floats converts them once, component by component.

pub mod astro;
pub mod math;
