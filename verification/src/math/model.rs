//! Mathematical models of vectors and orientations: triples and quadruples
//! of raw values, as unbounded integers, with the fixed-point operations on
//! them. The contracts of the executable types are stated over these.

use crate::math::scalar::{fx_div, fx_mul, STORAGE_ONE, WIDEN_FACTOR, WIDE_ONE};
use vstd::prelude::*;

verus! {

/// True when `lo <= x <= hi`.
pub open spec fn between(x: int, lo: int, hi: int) -> bool {
    lo <= x <= hi
}

/// Three raw values: the model of a vector of either kind.
pub struct RawVec3 {
    pub x: int,
    pub y: int,
    pub z: int,
}

impl RawVec3 {
    /// The zero vector.
    pub open spec fn zero() -> RawVec3 {
        RawVec3 { x: 0, y: 0, z: 0 }
    }

    /// True when each component lies in `lo ..= hi`.
    pub open spec fn within(self, lo: int, hi: int) -> bool {
        between(self.x, lo, hi) && between(self.y, lo, hi) && between(self.z, lo, hi)
    }

    /// The opposite vector.
    pub open spec fn negated(self) -> RawVec3 {
        RawVec3 { x: -self.x, y: -self.y, z: -self.z }
    }

    /// The sum, component by component.
    pub open spec fn plus(self, o: RawVec3) -> RawVec3 {
        RawVec3 { x: self.x + o.x, y: self.y + o.y, z: self.z + o.z }
    }

    /// The difference, component by component.
    pub open spec fn minus(self, o: RawVec3) -> RawVec3 {
        RawVec3 { x: self.x - o.x, y: self.y - o.y, z: self.z - o.z }
    }

    /// Each component times the scalar `k`, as fixed-point products.
    pub open spec fn scaled(self, k: int, one: int) -> RawVec3 {
        RawVec3 { x: fx_mul(self.x, k, one), y: fx_mul(self.y, k, one), z: fx_mul(self.z, k, one) }
    }

    /// Each component divided by the scalar `k`, as fixed-point quotients.
    pub open spec fn shrunk(self, k: int, one: int) -> RawVec3 {
        RawVec3 { x: fx_div(self.x, k, one), y: fx_div(self.y, k, one), z: fx_div(self.z, k, one) }
    }

    /// The dot product: the sum of the three fixed-point products.
    pub open spec fn dot(self, o: RawVec3, one: int) -> int {
        fx_mul(self.x, o.x, one) + fx_mul(self.y, o.y, one) + fx_mul(self.z, o.z, one)
    }

    /// True when the three products of the dot product and the two sums,
    /// taken from the left, lie in `lo ..= hi`.
    pub open spec fn dot_fits(self, o: RawVec3, one: int, lo: int, hi: int) -> bool {
        &&& between(fx_mul(self.x, o.x, one), lo, hi)
        &&& between(fx_mul(self.y, o.y, one), lo, hi)
        &&& between(fx_mul(self.z, o.z, one), lo, hi)
        &&& between(fx_mul(self.x, o.x, one) + fx_mul(self.y, o.y, one), lo, hi)
        &&& between(self.dot(o, one), lo, hi)
    }

    /// The cross product, each component a difference of two fixed-point
    /// products.
    pub open spec fn cross(self, o: RawVec3, one: int) -> RawVec3 {
        RawVec3 {
            x: fx_mul(self.y, o.z, one) - fx_mul(self.z, o.y, one),
            y: fx_mul(self.z, o.x, one) - fx_mul(self.x, o.z, one),
            z: fx_mul(self.x, o.y, one) - fx_mul(self.y, o.x, one),
        }
    }

    /// True when the six products of the cross product and its three
    /// components lie in `lo ..= hi`.
    pub open spec fn cross_fits(self, o: RawVec3, one: int, lo: int, hi: int) -> bool {
        &&& between(fx_mul(self.y, o.z, one), lo, hi)
        &&& between(fx_mul(self.z, o.y, one), lo, hi)
        &&& between(fx_mul(self.z, o.x, one), lo, hi)
        &&& between(fx_mul(self.x, o.z, one), lo, hi)
        &&& between(fx_mul(self.x, o.y, one), lo, hi)
        &&& between(fx_mul(self.y, o.x, one), lo, hi)
        &&& self.cross(o, one).within(lo, hi)
    }

    /// The squared magnitude: the dot product of the vector with itself.
    pub open spec fn mag2(self, one: int) -> int {
        self.dot(self, one)
    }

    /// Each component times the whole number `k`.
    pub open spec fn times(self, k: int) -> RawVec3 {
        RawVec3 { x: k * self.x, y: k * self.y, z: k * self.z }
    }

    /// Each component times `factor`: the same vector with more fractional
    /// bits.
    pub open spec fn widened(self, factor: int) -> RawVec3 {
        RawVec3 { x: self.x * factor, y: self.y * factor, z: self.z * factor }
    }

    /// Each component divided by `factor` and rounded towards minus
    /// infinity: the vector with fewer fractional bits.
    pub open spec fn narrowed(self, factor: int) -> RawVec3 {
        RawVec3 { x: self.x / factor, y: self.y / factor, z: self.z / factor }
    }

    /// The exact sum of the squares of the raw components.
    pub open spec fn norm2(self) -> int {
        self.x * self.x + self.y * self.y + self.z * self.z
    }
}

/// Four raw values of the wide scalar: the model of an orientation, the
/// quaternion `w + x i + y j + z k`.
pub struct RawQuat {
    pub w: int,
    pub x: int,
    pub y: int,
    pub z: int,
}

/// How far the squared norm of an orientation may lie from 1 for it to
/// count as a unit quaternion, as a raw value of twice the wide scalar's
/// fractional bits: 2^112, that is 2^-12.
pub open spec fn unit_tolerance() -> int {
    0x1_0000_0000_0000_0000_0000_0000_0000
}

impl RawQuat {
    /// The identity: no rotation.
    pub open spec fn identity() -> RawQuat {
        RawQuat { w: WIDE_ONE as int, x: 0, y: 0, z: 0 }
    }

    /// The vector part.
    pub open spec fn axis(self) -> RawVec3 {
        RawVec3 { x: self.x, y: self.y, z: self.z }
    }

    /// The conjugate, which for a unit quaternion is the inverse.
    pub open spec fn conjugate(self) -> RawQuat {
        RawQuat { w: self.w, x: -self.x, y: -self.y, z: -self.z }
    }

    /// The exact sum of the squares of the four raw components.
    pub open spec fn norm2(self) -> int {
        self.w * self.w + self.x * self.x + self.y * self.y + self.z * self.z
    }

    /// True when the squared norm lies within [`unit_tolerance`] of 1.
    pub open spec fn is_unit(self) -> bool {
        let one = WIDE_ONE as int * WIDE_ONE as int;
        one - unit_tolerance() <= self.norm2() <= one + unit_tolerance()
    }
}

/// The inner term of the rotation, `t = q_xyz x v + v * w`, in the wide
/// scalar.
pub open spec fn rotate_inner(v: RawVec3, q: RawQuat) -> RawVec3 {
    q.axis().cross(v, WIDE_ONE as int).plus(v.scaled(q.w, WIDE_ONE as int))
}

/// The rotation of the wide vector `v` by `q`, every operation in the wide
/// scalar: `v + (q_xyz x t) * 2` with `t = q_xyz x v + v * w`.
pub open spec fn rotate_wide(v: RawVec3, q: RawQuat) -> RawVec3 {
    let t = rotate_inner(v, q);
    v.plus(q.axis().cross(t, WIDE_ONE as int).scaled(2 * WIDE_ONE as int, WIDE_ONE as int))
}

/// True when every operation of [`rotate_wide`] gives a value in
/// `lo ..= hi`.
pub open spec fn rotate_wide_fits(v: RawVec3, q: RawQuat, lo: int, hi: int) -> bool {
    let one = WIDE_ONE as int;
    let t = rotate_inner(v, q);
    let c = q.axis().cross(t, one);
    &&& q.axis().cross_fits(v, one, lo, hi)
    &&& v.scaled(q.w, one).within(lo, hi)
    &&& t.within(lo, hi)
    &&& q.axis().cross_fits(t, one, lo, hi)
    &&& c.scaled(2 * one, one).within(lo, hi)
    &&& rotate_wide(v, q).within(lo, hi)
}

/// Raw steps of the wide scalar in one raw step of the scalar in which 1.0
/// has the raw value `one`.
pub open spec fn widen_factor(one: int) -> int {
    WIDE_ONE as int / one
}

/// The rotation by `q` of a vector whose scalar has the raw value `one` for
/// 1.0: the vector brought to the wide scalar, rotated there by
/// [`rotate_wide`], and cut back to its own scalar.
pub open spec fn rotate_model(v: RawVec3, q: RawQuat, one: int) -> RawVec3 {
    rotate_wide(v.widened(widen_factor(one)), q).narrowed(widen_factor(one))
}

/// True when the rotation of `v` by `q` is representable: every operation in
/// the wide scalar gives a wide scalar, and the result lies in `lo ..= hi`,
/// the range of the vector's own scalar.
pub open spec fn rotate_fits(v: RawVec3, q: RawQuat, one: int, lo: int, hi: int) -> bool {
    &&& rotate_wide_fits(v.widened(widen_factor(one)), q, i128::MIN as int, i128::MAX as int)
    &&& rotate_model(v, q, one).within(lo, hi)
}

/// One raw step of the storage scalar is 2^46 raw steps of the wide scalar.
pub proof fn lemma_widen_factor_storage()
    ensures
        widen_factor(STORAGE_ONE as int) == WIDEN_FACTOR,
{
    assert(0x4000_0000_0000_0000int / 0x1_0000int == 0x4000_0000_0000int) by (nonlinear_arith);
}

/// The wide scalar is its own wide scalar: bringing a wide vector to the
/// wide scalar, or cutting it back, changes nothing.
pub proof fn lemma_widen_by_one(v: RawVec3)
    ensures
        widen_factor(WIDE_ONE as int) == 1,
        v.widened(1) == v,
        v.narrowed(1) == v,
{
}

} // verus!
