//! Orientations: unit quaternions in the wide scalar.

use crate::math::bounds::{lemma_product_bound, lemma_square_above, lemma_square_nonneg};
use crate::math::model::RawQuat;
use crate::math::scalar::{fits_i128, FixWide};
use core::ops::Neg;
use vstd::prelude::*;

verus! {

/// An orientation: the quaternion `w + x i + y j + z k`, each component a
/// wide scalar. It stands for a rotation where it is a unit quaternion; no
/// function of this crate normalizes one.
#[derive(Clone, Copy, Debug, PartialEq, Eq, Structural)]
pub struct Orientation {
    pub w: FixWide,
    pub x: FixWide,
    pub y: FixWide,
    pub z: FixWide,
}

impl View for Orientation {
    type V = RawQuat;

    /// The four raw values.
    open spec fn view(&self) -> RawQuat {
        RawQuat { w: self.w@, x: self.x@, y: self.y@, z: self.z@ }
    }
}

impl Orientation {
    /// The quaternion with the given components.
    pub fn new(w: FixWide, x: FixWide, y: FixWide, z: FixWide) -> (r: Orientation)
        ensures
            r@ == (RawQuat { w: w@, x: x@, y: y@, z: z@ }),
    {
        Orientation { w, x, y, z }
    }

    /// The identity: the orientation that rotates nothing.
    pub fn identity() -> (r: Orientation)
        ensures
            r@ == RawQuat::identity(),
    {
        Orientation { w: FixWide::one(), x: FixWide::zero(), y: FixWide::zero(), z: FixWide::zero() }
    }

    /// True when the conjugate is representable: no component of the vector
    /// part is the least wide scalar.
    pub open spec fn invertible(self) -> bool {
        fits_i128(-self.x@) && fits_i128(-self.y@) && fits_i128(-self.z@)
    }

    /// The inverse of a unit quaternion: its conjugate, which is exact.
    pub fn inverse(self) -> (r: Orientation)
        requires
            self.invertible(),
        ensures
            r@ == self@.conjugate(),
    {
        Orientation { w: self.w, x: self.x.neg(), y: self.y.neg(), z: self.z.neg() }
    }

    /// Tells whether the quaternion is a unit quaternion: whether its
    /// squared norm, computed exactly, lies within 2^-12 of 1.
    pub fn is_normalized(&self) -> (r: bool)
        ensures
            r == self@.is_unit(),
    {
        let lim: i128 = 0x4004_0000_0000_0000;
        let w: i128 = self.w.bits;
        let x: i128 = self.x.bits;
        let y: i128 = self.y.bits;
        let z: i128 = self.z.bits;
        if w < -lim || w > lim || x < -lim || x > lim || y < -lim || y > lim || z < -lim || z
            > lim {
            proof {
                lemma_square_nonneg(w as int);
                lemma_square_nonneg(x as int);
                lemma_square_nonneg(y as int);
                lemma_square_nonneg(z as int);
                if w < -lim || w > lim {
                    lemma_square_above(w as int, lim as int);
                } else if x < -lim || x > lim {
                    lemma_square_above(x as int, lim as int);
                } else if y < -lim || y > lim {
                    lemma_square_above(y as int, lim as int);
                } else {
                    lemma_square_above(z as int, lim as int);
                }
            }
            return false;
        }
        proof {
            lemma_square_nonneg(w as int);
            lemma_square_nonneg(x as int);
            lemma_square_nonneg(y as int);
            lemma_square_nonneg(z as int);
            lemma_product_bound(w as int, w as int, lim as int, lim as int);
            lemma_product_bound(x as int, x as int, lim as int, lim as int);
            lemma_product_bound(y as int, y as int, lim as int, lim as int);
            lemma_product_bound(z as int, z as int, lim as int, lim as int);
        }
        let n: i128 = w * w + x * x + y * y + z * z;
        let one: i128 = 0x1000_0000_0000_0000_0000_0000_0000_0000;
        let tol: i128 = 0x1_0000_0000_0000_0000_0000_0000_0000;
        one - tol <= n && n <= one + tol
    }
}

/// A unit orientation has an inverse: none of its components is large
/// enough for its opposite to overflow.
pub proof fn lemma_unit_is_invertible(q: Orientation)
    requires
        q@.is_unit(),
    ensures
        q.invertible(),
{
    let lim = 0x4004_0000_0000_0000int;
    lemma_square_nonneg(q.w@);
    lemma_square_nonneg(q.x@);
    lemma_square_nonneg(q.y@);
    lemma_square_nonneg(q.z@);
    if q.x@ < -lim {
        lemma_square_above(q.x@, lim);
    }
    if q.y@ < -lim {
        lemma_square_above(q.y@, lim);
    }
    if q.z@ < -lim {
        lemma_square_above(q.z@, lim);
    }
}

} // verus!
