//! The two kinds of fixed-point vector and what they have in common.

use crate::math::range::lemma_rotate_in_range;
use crate::math::convert::ToScalar;
use crate::math::model::{
    lemma_widen_by_one, lemma_widen_factor_storage, rotate_fits, rotate_model, rotate_wide,
    RawVec3,
};
use crate::math::orientation::Orientation;
use crate::math::scalar::{FixOrigin, FixWide, MAX_COORD, STORAGE_ONE, WIDEN_FACTOR, WIDE_ONE};
use core::ops::{Add, AddAssign, Div, DivAssign, Mul, MulAssign, Neg, Sub, SubAssign};
use vstd::prelude::*;
use vstd::std_specs::ops::{AddSpecImpl, DivSpecImpl, MulSpecImpl, NegSpecImpl, SubSpecImpl};

verus! {

/// What every kind of 3-vector offers: construction, access to the
/// components, the dot and cross products, the squared magnitude and
/// rotation by an orientation. The contracts are stated once, over the model
/// of a vector and the three numbers that tell the kinds apart: the raw
/// value of 1.0 and the least and greatest raw value of the scalar.
pub trait TypeVec3:
    Sized
    + Copy
    + Neg<Output = Self>
    + Add<Output = Self>
    + Sub<Output = Self>
    + Mul<Self::Scalar, Output = Self>
    + Div<Self::Scalar, Output = Self>
{
    /// The scalar of the components.
    type Scalar: Copy;

    /// Raw value of 1.0 in the scalar.
    spec fn one() -> int;

    /// Least raw value of the scalar.
    spec fn min_raw() -> int;

    /// Greatest raw value of the scalar.
    spec fn max_raw() -> int;

    /// Raw value of a scalar.
    spec fn raw(s: Self::Scalar) -> int;

    /// The three raw values of the vector.
    spec fn model(self) -> RawVec3;

    /// The vector with the given components, each a scalar or a number
    /// that converts to one.
    fn new<X, Y, Z>(x: X, y: Y, z: Z) -> (r: Self) where
        X: ToScalar<Self::Scalar>,
        Y: ToScalar<Self::Scalar>,
        Z: ToScalar<Self::Scalar>,

        requires
            x.to_scalar_req(),
            y.to_scalar_req(),
            z.to_scalar_req(),
        ensures
            r.model() == (RawVec3 {
                x: Self::raw(x.to_scalar_spec()),
                y: Self::raw(y.to_scalar_spec()),
                z: Self::raw(z.to_scalar_spec()),
            }),
    ;

    /// The zero vector.
    fn zero() -> (r: Self)
        ensures
            r.model() == RawVec3::zero(),
    ;

    /// The first component.
    fn x(&self) -> (r: Self::Scalar)
        ensures
            Self::raw(r) == self.model().x,
    ;

    /// The second component.
    fn y(&self) -> (r: Self::Scalar)
        ensures
            Self::raw(r) == self.model().y,
    ;

    /// The third component.
    fn z(&self) -> (r: Self::Scalar)
        ensures
            Self::raw(r) == self.model().z,
    ;

    /// The dot product.
    fn dot(self, other: Self) -> (r: Self::Scalar)
        requires
            self.model().dot_fits(other.model(), Self::one(), Self::min_raw(), Self::max_raw()),
        ensures
            Self::raw(r) == self.model().dot(other.model(), Self::one()),
    ;

    /// The cross product.
    fn cross(self, other: Self) -> (r: Self)
        requires
            self.model().cross_fits(other.model(), Self::one(), Self::min_raw(), Self::max_raw()),
        ensures
            r.model() == self.model().cross(other.model(), Self::one()),
    ;

    /// The squared magnitude.
    fn mag2(self) -> (r: Self::Scalar)
        requires
            self.model().dot_fits(self.model(), Self::one(), Self::min_raw(), Self::max_raw()),
        ensures
            Self::raw(r) == self.model().mag2(Self::one()),
    ;

    /// The vector rotated by `rot`: brought to the wide scalar, rotated
    /// there, and brought back.
    fn rotate(self, rot: Orientation) -> (r: Self)
        requires
            rotate_fits(self.model(), rot@, Self::one(), Self::min_raw(), Self::max_raw()),
        ensures
            r.model() == rotate_model(self.model(), rot@, Self::one()),
    ;
}

/// A vector of storage scalars: an absolute position or velocity.
#[derive(Clone, Copy, Debug, Default, PartialEq, Eq, Structural)]
pub struct FixVec3 {
    pub x: FixOrigin,
    pub y: FixOrigin,
    pub z: FixOrigin,
}

/// A vector of wide scalars: an intermediate value of a rotation.
#[derive(Clone, Copy, Debug, Default, PartialEq, Eq, Structural)]
pub struct FixVec3Wide {
    pub x: FixWide,
    pub y: FixWide,
    pub z: FixWide,
}

impl View for FixVec3 {
    type V = RawVec3;

    /// The three raw values.
    open spec fn view(&self) -> RawVec3 {
        RawVec3 { x: self.x@, y: self.y@, z: self.z@ }
    }
}

impl View for FixVec3Wide {
    type V = RawVec3;

    /// The three raw values.
    open spec fn view(&self) -> RawVec3 {
        RawVec3 { x: self.x@, y: self.y@, z: self.z@ }
    }
}

impl FixVec3 {
    /// The vector of storage scalars with the raw values of `m`.
    pub open spec fn from_raw(m: RawVec3) -> FixVec3 {
        FixVec3 {
            x: FixOrigin { bits: m.x as i64 },
            y: FixOrigin { bits: m.y as i64 },
            z: FixOrigin { bits: m.z as i64 },
        }
    }

    /// True when `m` is the model of a vector of storage scalars.
    pub open spec fn representable(m: RawVec3) -> bool {
        m.within(i64::MIN as int, i64::MAX as int)
    }

    /// The vector with the given components, each a scalar or a number
    /// that converts to one.
    pub fn new<X, Y, Z>(x: X, y: Y, z: Z) -> (r: FixVec3) where
        X: ToScalar<FixOrigin>,
        Y: ToScalar<FixOrigin>,
        Z: ToScalar<FixOrigin>,

        requires
            x.to_scalar_req(),
            y.to_scalar_req(),
            z.to_scalar_req(),
        ensures
            r@ == (RawVec3 {
                x: x.to_scalar_spec()@,
                y: y.to_scalar_spec()@,
                z: z.to_scalar_spec()@,
            }),
    {
        FixVec3 { x: x.to_scalar(), y: y.to_scalar(), z: z.to_scalar() }
    }

    /// The dot product, in the storage scalar.
    pub fn dot(self, other: FixVec3) -> (r: FixOrigin)
        requires
            self@.dot_fits(other@, STORAGE_ONE as int, i64::MIN as int, i64::MAX as int),
        ensures
            r@ == self@.dot(other@, STORAGE_ONE as int),
    {
        self.x * other.x + self.y * other.y + self.z * other.z
    }

    /// The cross product, in the storage scalar.
    pub fn cross(self, other: FixVec3) -> (r: FixVec3)
        requires
            self@.cross_fits(other@, STORAGE_ONE as int, i64::MIN as int, i64::MAX as int),
        ensures
            r@ == self@.cross(other@, STORAGE_ONE as int),
    {
        FixVec3 {
            x: self.y * other.z - self.z * other.y,
            y: self.z * other.x - self.x * other.z,
            z: self.x * other.y - self.y * other.x,
        }
    }
}

impl FixVec3Wide {
    /// The vector of wide scalars with the raw values of `m`.
    pub open spec fn from_raw(m: RawVec3) -> FixVec3Wide {
        FixVec3Wide {
            x: FixWide { bits: m.x as i128 },
            y: FixWide { bits: m.y as i128 },
            z: FixWide { bits: m.z as i128 },
        }
    }

    /// True when `m` is the model of a vector of wide scalars.
    pub open spec fn representable(m: RawVec3) -> bool {
        m.within(i128::MIN as int, i128::MAX as int)
    }

    /// The vector with the given components, each a scalar or a number
    /// that converts to one.
    pub fn new<X, Y, Z>(x: X, y: Y, z: Z) -> (r: FixVec3Wide) where
        X: ToScalar<FixWide>,
        Y: ToScalar<FixWide>,
        Z: ToScalar<FixWide>,

        requires
            x.to_scalar_req(),
            y.to_scalar_req(),
            z.to_scalar_req(),
        ensures
            r@ == (RawVec3 {
                x: x.to_scalar_spec()@,
                y: y.to_scalar_spec()@,
                z: z.to_scalar_spec()@,
            }),
    {
        FixVec3Wide { x: x.to_scalar(), y: y.to_scalar(), z: z.to_scalar() }
    }

    /// The dot product, in the wide scalar.
    pub fn dot(self, other: FixVec3Wide) -> (r: FixWide)
        requires
            self@.dot_fits(other@, WIDE_ONE as int, i128::MIN as int, i128::MAX as int),
        ensures
            r@ == self@.dot(other@, WIDE_ONE as int),
    {
        self.x * other.x + self.y * other.y + self.z * other.z
    }

    /// The cross product, in the wide scalar.
    pub fn cross(self, other: FixVec3Wide) -> (r: FixVec3Wide)
        requires
            self@.cross_fits(other@, WIDE_ONE as int, i128::MIN as int, i128::MAX as int),
        ensures
            r@ == self@.cross(other@, WIDE_ONE as int),
    {
        FixVec3Wide {
            x: self.y * other.z - self.z * other.y,
            y: self.z * other.x - self.x * other.z,
            z: self.x * other.y - self.y * other.x,
        }
    }
}


impl Neg for FixVec3 {
    type Output = FixVec3;

    fn neg(self) -> (r: FixVec3) {
        FixVec3 { x: self.x.neg(), y: self.y.neg(), z: self.z.neg() }
    }
}

impl NegSpecImpl for FixVec3 {
    open spec fn obeys_neg_spec() -> bool {
        true
    }

    open spec fn neg_req(self) -> bool {
        FixVec3::representable(self@.negated())
    }

    open spec fn neg_spec(self) -> FixVec3 {
        FixVec3::from_raw(self@.negated())
    }
}

impl Add for FixVec3 {
    type Output = FixVec3;

    fn add(self, rhs: FixVec3) -> (r: FixVec3) {
        FixVec3 { x: self.x + rhs.x, y: self.y + rhs.y, z: self.z + rhs.z }
    }
}

impl AddSpecImpl for FixVec3 {
    open spec fn obeys_add_spec() -> bool {
        true
    }

    open spec fn add_req(self, rhs: FixVec3) -> bool {
        FixVec3::representable(self@.plus(rhs@))
    }

    open spec fn add_spec(self, rhs: FixVec3) -> FixVec3 {
        FixVec3::from_raw(self@.plus(rhs@))
    }
}

impl Sub for FixVec3 {
    type Output = FixVec3;

    fn sub(self, rhs: FixVec3) -> (r: FixVec3) {
        FixVec3 { x: self.x - rhs.x, y: self.y - rhs.y, z: self.z - rhs.z }
    }
}

impl SubSpecImpl for FixVec3 {
    open spec fn obeys_sub_spec() -> bool {
        true
    }

    open spec fn sub_req(self, rhs: FixVec3) -> bool {
        FixVec3::representable(self@.minus(rhs@))
    }

    open spec fn sub_spec(self, rhs: FixVec3) -> FixVec3 {
        FixVec3::from_raw(self@.minus(rhs@))
    }
}

impl Mul<FixOrigin> for FixVec3 {
    type Output = FixVec3;

    fn mul(self, rhs: FixOrigin) -> (r: FixVec3) {
        FixVec3 { x: self.x * rhs, y: self.y * rhs, z: self.z * rhs }
    }
}

impl MulSpecImpl<FixOrigin> for FixVec3 {
    open spec fn obeys_mul_spec() -> bool {
        true
    }

    open spec fn mul_req(self, rhs: FixOrigin) -> bool {
        FixVec3::representable(self@.scaled(rhs@, STORAGE_ONE as int))
    }

    open spec fn mul_spec(self, rhs: FixOrigin) -> FixVec3 {
        FixVec3::from_raw(self@.scaled(rhs@, STORAGE_ONE as int))
    }
}

impl Div<FixOrigin> for FixVec3 {
    type Output = FixVec3;

    fn div(self, rhs: FixOrigin) -> (r: FixVec3) {
        FixVec3 { x: self.x / rhs, y: self.y / rhs, z: self.z / rhs }
    }
}

impl DivSpecImpl<FixOrigin> for FixVec3 {
    open spec fn obeys_div_spec() -> bool {
        true
    }

    open spec fn div_req(self, rhs: FixOrigin) -> bool {
        rhs@ != 0 && FixVec3::representable(self@.shrunk(rhs@, STORAGE_ONE as int))
    }

    open spec fn div_spec(self, rhs: FixOrigin) -> FixVec3 {
        FixVec3::from_raw(self@.shrunk(rhs@, STORAGE_ONE as int))
    }
}

impl Neg for FixVec3Wide {
    type Output = FixVec3Wide;

    fn neg(self) -> (r: FixVec3Wide) {
        FixVec3Wide { x: self.x.neg(), y: self.y.neg(), z: self.z.neg() }
    }
}

impl NegSpecImpl for FixVec3Wide {
    open spec fn obeys_neg_spec() -> bool {
        true
    }

    open spec fn neg_req(self) -> bool {
        FixVec3Wide::representable(self@.negated())
    }

    open spec fn neg_spec(self) -> FixVec3Wide {
        FixVec3Wide::from_raw(self@.negated())
    }
}

impl Add for FixVec3Wide {
    type Output = FixVec3Wide;

    fn add(self, rhs: FixVec3Wide) -> (r: FixVec3Wide) {
        FixVec3Wide { x: self.x + rhs.x, y: self.y + rhs.y, z: self.z + rhs.z }
    }
}

impl AddSpecImpl for FixVec3Wide {
    open spec fn obeys_add_spec() -> bool {
        true
    }

    open spec fn add_req(self, rhs: FixVec3Wide) -> bool {
        FixVec3Wide::representable(self@.plus(rhs@))
    }

    open spec fn add_spec(self, rhs: FixVec3Wide) -> FixVec3Wide {
        FixVec3Wide::from_raw(self@.plus(rhs@))
    }
}

impl Sub for FixVec3Wide {
    type Output = FixVec3Wide;

    fn sub(self, rhs: FixVec3Wide) -> (r: FixVec3Wide) {
        FixVec3Wide { x: self.x - rhs.x, y: self.y - rhs.y, z: self.z - rhs.z }
    }
}

impl SubSpecImpl for FixVec3Wide {
    open spec fn obeys_sub_spec() -> bool {
        true
    }

    open spec fn sub_req(self, rhs: FixVec3Wide) -> bool {
        FixVec3Wide::representable(self@.minus(rhs@))
    }

    open spec fn sub_spec(self, rhs: FixVec3Wide) -> FixVec3Wide {
        FixVec3Wide::from_raw(self@.minus(rhs@))
    }
}

impl Mul<FixWide> for FixVec3Wide {
    type Output = FixVec3Wide;

    fn mul(self, rhs: FixWide) -> (r: FixVec3Wide) {
        FixVec3Wide { x: self.x * rhs, y: self.y * rhs, z: self.z * rhs }
    }
}

impl MulSpecImpl<FixWide> for FixVec3Wide {
    open spec fn obeys_mul_spec() -> bool {
        true
    }

    open spec fn mul_req(self, rhs: FixWide) -> bool {
        FixVec3Wide::representable(self@.scaled(rhs@, WIDE_ONE as int))
    }

    open spec fn mul_spec(self, rhs: FixWide) -> FixVec3Wide {
        FixVec3Wide::from_raw(self@.scaled(rhs@, WIDE_ONE as int))
    }
}

impl Div<FixWide> for FixVec3Wide {
    type Output = FixVec3Wide;

    fn div(self, rhs: FixWide) -> (r: FixVec3Wide) {
        FixVec3Wide { x: self.x / rhs, y: self.y / rhs, z: self.z / rhs }
    }
}

impl DivSpecImpl<FixWide> for FixVec3Wide {
    open spec fn obeys_div_spec() -> bool {
        true
    }

    open spec fn div_req(self, rhs: FixWide) -> bool {
        rhs@ != 0 && FixVec3Wide::representable(self@.shrunk(rhs@, WIDE_ONE as int))
    }

    open spec fn div_spec(self, rhs: FixWide) -> FixVec3Wide {
        FixVec3Wide::from_raw(self@.shrunk(rhs@, WIDE_ONE as int))
    }
}


impl FixVec3 {
    /// The zero vector.
    pub fn zero() -> (r: FixVec3)
        ensures
            r@ == RawVec3::zero(),
    {
        FixVec3 { x: FixOrigin::zero(), y: FixOrigin::zero(), z: FixOrigin::zero() }
    }

    /// True when no coordinate exceeds [`MAX_COORD`] in magnitude: the
    /// vector can then be rotated by every unit orientation.
    pub open spec fn in_range(self) -> bool {
        self@.within(-(MAX_COORD as int), MAX_COORD as int)
    }

    /// Tells whether no coordinate exceeds [`MAX_COORD`] in magnitude.
    pub fn is_in_range(&self) -> (r: bool)
        ensures
            r == self.in_range(),
    {
        -MAX_COORD <= self.x.bits && self.x.bits <= MAX_COORD && -MAX_COORD <= self.y.bits
            && self.y.bits <= MAX_COORD && -MAX_COORD <= self.z.bits && self.z.bits <= MAX_COORD
    }

    /// The difference `self - rhs`, or `None` where a coordinate of it does
    /// not fit the storage scalar.
    pub fn checked_sub(self, rhs: FixVec3) -> (r: Option<FixVec3>)
        ensures
            r.is_some() == FixVec3::representable(self@.minus(rhs@)),
            r is Some ==> r.unwrap()@ == self@.minus(rhs@),
    {
        match (self.x.checked_sub(rhs.x), self.y.checked_sub(rhs.y), self.z.checked_sub(rhs.z)) {
            (Some(x), Some(y), Some(z)) => Some(FixVec3 { x, y, z }),
            _ => None,
        }
    }

    /// The vector rotated by `rot`, where `rot` is a unit quaternion and no
    /// coordinate exceeds [`MAX_COORD`] in magnitude; `None` otherwise. In
    /// that range no rotation overflows.
    pub fn checked_rotate(self, rot: Orientation) -> (r: Option<FixVec3>)
        ensures
            r.is_some() == (rot@.is_unit() && self.in_range()),
            r is Some ==> r.unwrap()@ == rotate_model(self@, rot@, STORAGE_ONE as int),
    {
        if rot.is_normalized() && self.is_in_range() {
            proof {
                lemma_rotate_in_range(self@, rot@, MAX_COORD as int);
            }
            Some(self.rotate(rot))
        } else {
            None
        }
    }

    /// The same vector in the wide scalar. Nothing is lost.
    pub fn widen(self) -> (r: FixVec3Wide)
        ensures
            r@ == self@.widened(WIDEN_FACTOR as int),
    {
        FixVec3Wide { x: self.x.widen(), y: self.y.widen(), z: self.z.widen() }
    }

    /// The same vector in another kind, each component converted to the
    /// scalar of `V`.
    pub fn to<V>(self) -> (r: V) where V: TypeVec3, FixOrigin: ToScalar<V::Scalar>
        requires
            <FixOrigin as ToScalar<V::Scalar>>::to_scalar_req(self.x),
            <FixOrigin as ToScalar<V::Scalar>>::to_scalar_req(self.y),
            <FixOrigin as ToScalar<V::Scalar>>::to_scalar_req(self.z),
        ensures
            r.model() == (RawVec3 {
                x: V::raw(<FixOrigin as ToScalar<V::Scalar>>::to_scalar_spec(self.x)),
                y: V::raw(<FixOrigin as ToScalar<V::Scalar>>::to_scalar_spec(self.y)),
                z: V::raw(<FixOrigin as ToScalar<V::Scalar>>::to_scalar_spec(self.z)),
            }),
    {
        V::new(self.x, self.y, self.z)
    }
}

impl FixVec3Wide {
    /// The zero vector.
    pub fn zero() -> (r: FixVec3Wide)
        ensures
            r@ == RawVec3::zero(),
    {
        FixVec3Wide { x: FixWide::zero(), y: FixWide::zero(), z: FixWide::zero() }
    }

    /// True when [`FixVec3Wide::narrow`] can represent this vector.
    pub open spec fn narrows(self) -> bool {
        FixVec3::representable(self@.narrowed(WIDEN_FACTOR as int))
    }

    /// The vector in the storage scalar, the 46 extra fractional bits of
    /// each component cut off.
    pub fn narrow(self) -> (r: FixVec3)
        requires
            self.narrows(),
        ensures
            r@ == self@.narrowed(WIDEN_FACTOR as int),
    {
        FixVec3 { x: self.x.narrow(), y: self.y.narrow(), z: self.z.narrow() }
    }

    /// The same vector in another kind, each component converted to the
    /// scalar of `V`.
    pub fn to<V>(self) -> (r: V) where V: TypeVec3, FixWide: ToScalar<V::Scalar>
        requires
            <FixWide as ToScalar<V::Scalar>>::to_scalar_req(self.x),
            <FixWide as ToScalar<V::Scalar>>::to_scalar_req(self.y),
            <FixWide as ToScalar<V::Scalar>>::to_scalar_req(self.z),
        ensures
            r.model() == (RawVec3 {
                x: V::raw(<FixWide as ToScalar<V::Scalar>>::to_scalar_spec(self.x)),
                y: V::raw(<FixWide as ToScalar<V::Scalar>>::to_scalar_spec(self.y)),
                z: V::raw(<FixWide as ToScalar<V::Scalar>>::to_scalar_spec(self.z)),
            }),
    {
        V::new(self.x, self.y, self.z)
    }
}

impl TypeVec3 for FixVec3Wide {
    type Scalar = FixWide;

    open spec fn one() -> int {
        WIDE_ONE as int
    }

    open spec fn min_raw() -> int {
        i128::MIN as int
    }

    open spec fn max_raw() -> int {
        i128::MAX as int
    }

    open spec fn raw(s: FixWide) -> int {
        s@
    }

    open spec fn model(self) -> RawVec3 {
        self@
    }

    fn new<X, Y, Z>(x: X, y: Y, z: Z) -> (r: FixVec3Wide) where
        X: ToScalar<FixWide>,
        Y: ToScalar<FixWide>,
        Z: ToScalar<FixWide>,
     {
        FixVec3Wide::new(x, y, z)
    }

    fn zero() -> (r: FixVec3Wide) {
        FixVec3Wide::zero()
    }

    fn x(&self) -> (r: FixWide) {
        self.x
    }

    fn y(&self) -> (r: FixWide) {
        self.y
    }

    fn z(&self) -> (r: FixWide) {
        self.z
    }

    fn dot(self, other: FixVec3Wide) -> (r: FixWide) {
        self.dot(other)
    }

    fn cross(self, other: FixVec3Wide) -> (r: FixVec3Wide) {
        self.cross(other)
    }

    fn mag2(self) -> (r: FixWide) {
        self.dot(self)
    }

    /// The rotation formula `v + (q_xyz x (q_xyz x v + v * w)) * 2`, every
    /// operation in the wide scalar.
    fn rotate(self, rot: Orientation) -> (r: FixVec3Wide) {
        proof {
            lemma_widen_by_one(self@);
            lemma_widen_by_one(rotate_wide(self@, rot@));
        }
        let q_w = rot.w;
        let q_xyz = FixVec3Wide::new(rot.x, rot.y, rot.z);
        let t1 = q_xyz.cross(self) + (self * q_w);
        self + (q_xyz.cross(t1) * FixWide::from_i32(2))
    }
}

impl TypeVec3 for FixVec3 {
    type Scalar = FixOrigin;

    open spec fn one() -> int {
        STORAGE_ONE as int
    }

    open spec fn min_raw() -> int {
        i64::MIN as int
    }

    open spec fn max_raw() -> int {
        i64::MAX as int
    }

    open spec fn raw(s: FixOrigin) -> int {
        s@
    }

    open spec fn model(self) -> RawVec3 {
        self@
    }

    fn new<X, Y, Z>(x: X, y: Y, z: Z) -> (r: FixVec3) where
        X: ToScalar<FixOrigin>,
        Y: ToScalar<FixOrigin>,
        Z: ToScalar<FixOrigin>,
     {
        FixVec3::new(x, y, z)
    }

    fn zero() -> (r: FixVec3) {
        FixVec3::zero()
    }

    fn x(&self) -> (r: FixOrigin) {
        self.x
    }

    fn y(&self) -> (r: FixOrigin) {
        self.y
    }

    fn z(&self) -> (r: FixOrigin) {
        self.z
    }

    fn dot(self, other: FixVec3) -> (r: FixOrigin) {
        self.dot(other)
    }

    fn cross(self, other: FixVec3) -> (r: FixVec3) {
        self.cross(other)
    }

    fn mag2(self) -> (r: FixOrigin) {
        self.dot(self)
    }

    /// The vector is brought to the wide scalar, rotated there, and cut
    /// back: only that last step loses anything of the wide result.
    fn rotate(self, rot: Orientation) -> (r: FixVec3) {
        proof {
            lemma_widen_factor_storage();
            lemma_widen_by_one(self@.widened(WIDEN_FACTOR as int));
            lemma_widen_by_one(rotate_wide(self@.widened(WIDEN_FACTOR as int), rot@));
        }
        let v_xyz = self.widen();
        let res = v_xyz.rotate(rot);
        res.narrow()
    }
}


impl AddAssign for FixVec3 {
    /// Adds `rhs` to the vector.
    fn add_assign(&mut self, rhs: FixVec3)
        requires
            FixVec3::representable(old(self)@.plus(rhs@)),
        ensures
            final(self)@ == old(self)@.plus(rhs@),
    {
        self.x = self.x + rhs.x;
        self.y = self.y + rhs.y;
        self.z = self.z + rhs.z;
    }
}

impl SubAssign for FixVec3 {
    /// Subtracts `rhs` from the vector.
    fn sub_assign(&mut self, rhs: FixVec3)
        requires
            FixVec3::representable(old(self)@.minus(rhs@)),
        ensures
            final(self)@ == old(self)@.minus(rhs@),
    {
        self.x = self.x - rhs.x;
        self.y = self.y - rhs.y;
        self.z = self.z - rhs.z;
    }
}

impl MulAssign<FixOrigin> for FixVec3 {
    /// Multiplies each component by `rhs`.
    fn mul_assign(&mut self, rhs: FixOrigin)
        requires
            FixVec3::representable(old(self)@.scaled(rhs@, STORAGE_ONE as int)),
        ensures
            final(self)@ == old(self)@.scaled(rhs@, STORAGE_ONE as int),
    {
        self.x = self.x * rhs;
        self.y = self.y * rhs;
        self.z = self.z * rhs;
    }
}

impl DivAssign<FixOrigin> for FixVec3 {
    /// Divides each component by `rhs`.
    fn div_assign(&mut self, rhs: FixOrigin)
        requires
            rhs@ != 0,
            FixVec3::representable(old(self)@.shrunk(rhs@, STORAGE_ONE as int)),
        ensures
            final(self)@ == old(self)@.shrunk(rhs@, STORAGE_ONE as int),
    {
        self.x = self.x / rhs;
        self.y = self.y / rhs;
        self.z = self.z / rhs;
    }
}

impl AddAssign for FixVec3Wide {
    /// Adds `rhs` to the vector.
    fn add_assign(&mut self, rhs: FixVec3Wide)
        requires
            FixVec3Wide::representable(old(self)@.plus(rhs@)),
        ensures
            final(self)@ == old(self)@.plus(rhs@),
    {
        self.x = self.x + rhs.x;
        self.y = self.y + rhs.y;
        self.z = self.z + rhs.z;
    }
}

impl SubAssign for FixVec3Wide {
    /// Subtracts `rhs` from the vector.
    fn sub_assign(&mut self, rhs: FixVec3Wide)
        requires
            FixVec3Wide::representable(old(self)@.minus(rhs@)),
        ensures
            final(self)@ == old(self)@.minus(rhs@),
    {
        self.x = self.x - rhs.x;
        self.y = self.y - rhs.y;
        self.z = self.z - rhs.z;
    }
}

impl MulAssign<FixWide> for FixVec3Wide {
    /// Multiplies each component by `rhs`.
    fn mul_assign(&mut self, rhs: FixWide)
        requires
            FixVec3Wide::representable(old(self)@.scaled(rhs@, WIDE_ONE as int)),
        ensures
            final(self)@ == old(self)@.scaled(rhs@, WIDE_ONE as int),
    {
        self.x = self.x * rhs;
        self.y = self.y * rhs;
        self.z = self.z * rhs;
    }
}

impl DivAssign<FixWide> for FixVec3Wide {
    /// Divides each component by `rhs`.
    fn div_assign(&mut self, rhs: FixWide)
        requires
            rhs@ != 0,
            FixVec3Wide::representable(old(self)@.shrunk(rhs@, WIDE_ONE as int)),
        ensures
            final(self)@ == old(self)@.shrunk(rhs@, WIDE_ONE as int),
    {
        self.x = self.x / rhs;
        self.y = self.y / rhs;
        self.z = self.z / rhs;
    }
}

} // verus!
