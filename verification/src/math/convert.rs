//! Conversions into the fixed-point scalars.

use crate::math::scalar::{
    fits_i64, FixOrigin, FixWide, STORAGE_ONE, WIDEN_FACTOR, WIDE_ONE,
};
use vstd::prelude::*;

verus! {

/// A number that can be turned into the scalar `T`.
pub trait ToScalar<T>: Sized {
    /// True when the number is representable in `T`.
    spec fn to_scalar_req(self) -> bool;

    /// The number as a `T`.
    spec fn to_scalar_spec(self) -> T;

    /// Converts the number.
    fn to_scalar(self) -> (r: T)
        requires
            self.to_scalar_req(),
        ensures
            r == self.to_scalar_spec(),
    ;
}

impl ToScalar<FixOrigin> for i32 {
    open spec fn to_scalar_req(self) -> bool {
        true
    }

    open spec fn to_scalar_spec(self) -> FixOrigin {
        FixOrigin { bits: (self * STORAGE_ONE) as i64 }
    }

    fn to_scalar(self) -> (r: FixOrigin) {
        FixOrigin::from_i32(self)
    }
}

impl ToScalar<FixOrigin> for usize {
    open spec fn to_scalar_req(self) -> bool {
        fits_i64(self * STORAGE_ONE)
    }

    open spec fn to_scalar_spec(self) -> FixOrigin {
        FixOrigin { bits: (self * STORAGE_ONE) as i64 }
    }

    fn to_scalar(self) -> (r: FixOrigin) {
        FixOrigin::from_usize(self)
    }
}

impl ToScalar<FixOrigin> for FixOrigin {
    open spec fn to_scalar_req(self) -> bool {
        true
    }

    open spec fn to_scalar_spec(self) -> FixOrigin {
        self
    }

    fn to_scalar(self) -> (r: FixOrigin) {
        self
    }
}

impl ToScalar<FixOrigin> for FixWide {
    open spec fn to_scalar_req(self) -> bool {
        self.narrows()
    }

    open spec fn to_scalar_spec(self) -> FixOrigin {
        FixOrigin { bits: (self@ / WIDEN_FACTOR as int) as i64 }
    }

    fn to_scalar(self) -> (r: FixOrigin) {
        self.narrow()
    }
}

impl ToScalar<FixWide> for i32 {
    open spec fn to_scalar_req(self) -> bool {
        true
    }

    open spec fn to_scalar_spec(self) -> FixWide {
        FixWide { bits: (self * WIDE_ONE) as i128 }
    }

    fn to_scalar(self) -> (r: FixWide) {
        FixWide::from_i32(self)
    }
}

impl ToScalar<FixWide> for usize {
    open spec fn to_scalar_req(self) -> bool {
        true
    }

    open spec fn to_scalar_spec(self) -> FixWide {
        FixWide { bits: (self * WIDE_ONE) as i128 }
    }

    fn to_scalar(self) -> (r: FixWide) {
        FixWide::from_usize(self)
    }
}

impl ToScalar<FixWide> for FixWide {
    open spec fn to_scalar_req(self) -> bool {
        true
    }

    open spec fn to_scalar_spec(self) -> FixWide {
        self
    }

    fn to_scalar(self) -> (r: FixWide) {
        self
    }
}

impl ToScalar<FixWide> for FixOrigin {
    open spec fn to_scalar_req(self) -> bool {
        true
    }

    open spec fn to_scalar_spec(self) -> FixWide {
        FixWide { bits: (self@ * WIDEN_FACTOR) as i128 }
    }

    fn to_scalar(self) -> (r: FixWide) {
        self.widen()
    }
}

} // verus!
