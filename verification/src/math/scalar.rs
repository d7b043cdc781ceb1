//! The two fixed-point scalars.
//!
//! A scalar is a signed integer, its raw value, read with a binary point at a
//! fixed place. [`FixOrigin`] is the storage scalar: 64 bits, 16 of them
//! fractional, for every coordinate that is kept. [`FixWide`] is the wide
//! scalar: 128 bits, 62 of them fractional, for the intermediate values of a
//! rotation. Contracts speak of raw values as mathematical integers.
//!
//! Sums, differences and negations are exact on raw values and are computed
//! here. Products, quotients and changes of width round, and need twice the
//! width on the way: those are computed by the `fixed` crate.

use core::ops::{Add, Div, Mul, Neg, Sub};
use fixed::types::extra::U62;
use fixed::types::I48F16;
use fixed::FixedI128;
use vstd::prelude::*;
use vstd::std_specs::ops::{AddSpecImpl, DivSpecImpl, MulSpecImpl, NegSpecImpl, SubSpecImpl};

verus! {

/// Total width of the storage scalar, in bits.
pub const STORAGE_BITS: u32 = 64;

/// Fractional bits of the storage scalar.
pub const STORAGE_FRAC_BITS: u32 = 16;

/// Total width of the wide scalar, in bits.
pub const WIDE_BITS: u32 = 128;

/// Fractional bits of the wide scalar.
pub const WIDE_FRAC_BITS: u32 = 62;

/// Raw value of 1.0 in the storage scalar: 2^16.
pub const STORAGE_ONE: i64 = 0x1_0000;

/// Raw value of 1.0 in the wide scalar: 2^62.
pub const WIDE_ONE: i128 = 0x4000_0000_0000_0000;

/// Wide raw steps in one storage raw step: 2^46.
pub const WIDEN_FACTOR: i128 = 0x4000_0000_0000;

/// Largest raw magnitude of a storage coordinate for which every rotation
/// by a unit orientation is proved representable: 2^62, that is 2^46 or
/// about 7.0e13 distance units, half of what the storage scalar holds.
pub const MAX_COORD: i64 = 0x4000_0000_0000_0000;

/// True when `x` is a raw value of the storage scalar.
pub open spec fn fits_i64(x: int) -> bool {
    i64::MIN <= x <= i64::MAX
}

/// True when `x` is a raw value of the wide scalar.
pub open spec fn fits_i128(x: int) -> bool {
    i128::MIN <= x <= i128::MAX
}

/// Raw value of a fixed-point product: the exact product of the raw values
/// divided by the raw value of 1.0, rounded towards minus infinity.
pub open spec fn fx_mul(a: int, b: int, one: int) -> int {
    (a * b) / one
}

/// Quotient of `n` by `d` rounded towards zero; 0 where `d` is 0.
pub open spec fn div_toward_zero(n: int, d: int) -> int {
    if d == 0 {
        0
    } else if n >= 0 && d > 0 {
        n / d
    } else if n >= 0 {
        -(n / (-d))
    } else if d > 0 {
        -((-n) / d)
    } else {
        (-n) / (-d)
    }
}

/// Raw value of a fixed-point quotient: the raw dividend times the raw value
/// of 1.0, divided by the raw divisor and rounded towards zero.
pub open spec fn fx_div(a: int, b: int, one: int) -> int {
    div_toward_zero(a * one, b)
}

/// Product in `fixed::types::I48F16`, by the crate's `Mul` impl, on raw
/// values. The crate computes the double-width product and shifts it right by
/// the 16 fractional bits, and reports overflow by a debug assertion: the
/// result is the floor of `a * b / 2^16` wherever that fits.
#[verifier::external_body]
fn storage_mul(a: i64, b: i64) -> (r: i64)
    requires
        fits_i64(fx_mul(a as int, b as int, STORAGE_ONE as int)),
    ensures
        r == fx_mul(a as int, b as int, STORAGE_ONE as int),
{
    (I48F16::from_bits(a) * I48F16::from_bits(b)).to_bits()
}

/// Quotient in `fixed::types::I48F16`, by the crate's `Div` impl, on raw
/// values. The crate shifts the dividend left by the 16 fractional bits in
/// double width and divides as Rust's integers do, towards zero; it panics on
/// a zero divisor and reports overflow by a debug assertion.
#[verifier::external_body]
fn storage_div(a: i64, b: i64) -> (r: i64)
    requires
        b != 0,
        fits_i64(fx_div(a as int, b as int, STORAGE_ONE as int)),
    ensures
        r == fx_div(a as int, b as int, STORAGE_ONE as int),
{
    (I48F16::from_bits(a) / I48F16::from_bits(b)).to_bits()
}

/// Product in `fixed::FixedI128<U62>`, by the crate's `Mul` impl, on raw
/// values. The crate computes the 256-bit product and shifts it right by the
/// 62 fractional bits, and reports overflow by a debug assertion: the result
/// is the floor of `a * b / 2^62` wherever that fits.
#[verifier::external_body]
fn wide_mul(a: i128, b: i128) -> (r: i128)
    requires
        fits_i128(fx_mul(a as int, b as int, WIDE_ONE as int)),
    ensures
        r == fx_mul(a as int, b as int, WIDE_ONE as int),
{
    (FixedI128::<U62>::from_bits(a) * FixedI128::<U62>::from_bits(b)).to_bits()
}

/// Quotient in `fixed::FixedI128<U62>`, by the crate's `Div` impl, on raw
/// values. The crate shifts the dividend left by the 62 fractional bits into
/// 256 bits and divides the magnitudes, so that the quotient is rounded
/// towards zero; it panics on a zero divisor and reports overflow by a debug
/// assertion.
#[verifier::external_body]
fn wide_div(a: i128, b: i128) -> (r: i128)
    requires
        b != 0,
        fits_i128(fx_div(a as int, b as int, WIDE_ONE as int)),
    ensures
        r == fx_div(a as int, b as int, WIDE_ONE as int),
{
    (FixedI128::<U62>::from_bits(a) / FixedI128::<U62>::from_bits(b)).to_bits()
}

/// `I48F16::from_num` on an `i32`: the integer as a fixed-point number. Every
/// `i32` fits the 48 integer bits.
#[verifier::external_body]
fn storage_from_i32(n: i32) -> (r: i64)
    ensures
        r == n * STORAGE_ONE,
{
    I48F16::from_num(n).to_bits()
}

/// `I48F16::from_num` on a `usize`: the integer as a fixed-point number. The
/// crate reports a value that does not fit by a debug assertion.
#[verifier::external_body]
fn storage_from_usize(n: usize) -> (r: i64)
    requires
        fits_i64(n * STORAGE_ONE),
    ensures
        r == n * STORAGE_ONE,
{
    I48F16::from_num(n).to_bits()
}

/// `FixedI128::<U62>::from_num` on an `i32`: the integer as a fixed-point
/// number. Every `i32` fits the 66 integer bits.
#[verifier::external_body]
fn wide_from_i32(n: i32) -> (r: i128)
    ensures
        r == n * WIDE_ONE,
{
    FixedI128::<U62>::from_num(n).to_bits()
}

/// `FixedI128::<U62>::from_num` on a `usize`: the integer as a fixed-point
/// number. A `usize` has at most 64 bits and fits the 66 integer bits.
#[verifier::external_body]
fn wide_from_usize(n: usize) -> (r: i128)
    ensures
        r == n * WIDE_ONE,
{
    FixedI128::<U62>::from_num(n).to_bits()
}

/// `FixedI128::<U62>::from_num` on an `I48F16`: the same number with 46 more
/// fractional bits, all zero. Every storage value fits.
#[verifier::external_body]
fn storage_to_wide(a: i64) -> (r: i128)
    ensures
        r == a * WIDEN_FACTOR,
{
    FixedI128::<U62>::from_num(I48F16::from_bits(a)).to_bits()
}

/// `I48F16::from_num` on a `FixedI128<U62>`: the crate discards the 46 extra
/// fractional bits, which rounds towards minus infinity, and reports a value
/// that does not fit by a debug assertion.
#[verifier::external_body]
fn wide_to_storage(a: i128) -> (r: i64)
    requires
        fits_i64(a as int / WIDEN_FACTOR as int),
    ensures
        r == a as int / WIDEN_FACTOR as int,
{
    I48F16::from_num(FixedI128::<U62>::from_bits(a)).to_bits()
}

/// The storage scalar: a signed 64-bit fixed-point number with 16 fractional
/// bits. Its value is `bits / 2^16`; its smallest step is `2^-16`.
#[derive(Clone, Copy, Debug, Default, PartialEq, Eq, PartialOrd, Ord, Hash, Structural)]
pub struct FixOrigin {
    pub bits: i64,
}

/// The wide scalar: a signed 128-bit fixed-point number with 62 fractional
/// bits. Its value is `bits / 2^62`; its smallest step is `2^-62`.
#[derive(Clone, Copy, Debug, Default, PartialEq, Eq, PartialOrd, Ord, Hash, Structural)]
pub struct FixWide {
    pub bits: i128,
}

impl View for FixOrigin {
    type V = int;

    /// The raw value.
    open spec fn view(&self) -> int {
        self.bits as int
    }
}

impl View for FixWide {
    type V = int;

    /// The raw value.
    open spec fn view(&self) -> int {
        self.bits as int
    }
}

impl FixOrigin {
    /// The scalar with the given raw value.
    pub fn from_bits(bits: i64) -> (r: FixOrigin)
        ensures
            r@ == bits,
    {
        FixOrigin { bits }
    }

    /// The raw value.
    pub fn to_bits(self) -> (r: i64)
        ensures
            r == self@,
    {
        self.bits
    }

    /// The number 0.
    pub fn zero() -> (r: FixOrigin)
        ensures
            r@ == 0,
    {
        FixOrigin { bits: 0 }
    }

    /// The number 1.
    pub fn one() -> (r: FixOrigin)
        ensures
            r@ == STORAGE_ONE,
    {
        FixOrigin { bits: STORAGE_ONE }
    }

    /// The smallest positive number, one raw step.
    pub fn delta() -> (r: FixOrigin)
        ensures
            r@ == 1,
    {
        FixOrigin { bits: 1 }
    }

    /// The integer `n` as a storage scalar.
    pub fn from_i32(n: i32) -> (r: FixOrigin)
        ensures
            r@ == n * STORAGE_ONE,
    {
        FixOrigin { bits: storage_from_i32(n) }
    }

    /// The integer `n` as a storage scalar.
    pub fn from_usize(n: usize) -> (r: FixOrigin)
        requires
            fits_i64(n * STORAGE_ONE),
        ensures
            r@ == n * STORAGE_ONE,
    {
        FixOrigin { bits: storage_from_usize(n) }
    }

    /// The absolute value.
    pub fn abs(self) -> (r: FixOrigin)
        requires
            self@ != i64::MIN,
        ensures
            r@ == if self@ < 0 { -self@ } else { self@ },
    {
        if self.bits < 0 {
            FixOrigin { bits: -self.bits }
        } else {
            self
        }
    }

    /// The difference `self - rhs`, or `None` where the storage scalar
    /// cannot hold it.
    pub fn checked_sub(self, rhs: FixOrigin) -> (r: Option<FixOrigin>)
        ensures
            r.is_some() == fits_i64(self@ - rhs@),
            r is Some ==> r.unwrap()@ == self@ - rhs@,
    {
        let d: i128 = self.bits as i128 - rhs.bits as i128;
        if d < i64::MIN as i128 || d > i64::MAX as i128 {
            None
        } else {
            Some(FixOrigin { bits: d as i64 })
        }
    }

    /// The same number in the wide scalar. Nothing is lost.
    pub fn widen(self) -> (r: FixWide)
        ensures
            r@ == self@ * WIDEN_FACTOR,
    {
        FixWide { bits: storage_to_wide(self.bits) }
    }
}

impl FixWide {
    /// The scalar with the given raw value.
    pub fn from_bits(bits: i128) -> (r: FixWide)
        ensures
            r@ == bits,
    {
        FixWide { bits }
    }

    /// The raw value.
    pub fn to_bits(self) -> (r: i128)
        ensures
            r == self@,
    {
        self.bits
    }

    /// The number 0.
    pub fn zero() -> (r: FixWide)
        ensures
            r@ == 0,
    {
        FixWide { bits: 0 }
    }

    /// The number 1.
    pub fn one() -> (r: FixWide)
        ensures
            r@ == WIDE_ONE,
    {
        FixWide { bits: WIDE_ONE }
    }

    /// The smallest positive number, one raw step.
    pub fn delta() -> (r: FixWide)
        ensures
            r@ == 1,
    {
        FixWide { bits: 1 }
    }

    /// The integer `n` as a wide scalar.
    pub fn from_i32(n: i32) -> (r: FixWide)
        ensures
            r@ == n * WIDE_ONE,
    {
        FixWide { bits: wide_from_i32(n) }
    }

    /// The integer `n` as a wide scalar.
    pub fn from_usize(n: usize) -> (r: FixWide)
        ensures
            r@ == n * WIDE_ONE,
    {
        FixWide { bits: wide_from_usize(n) }
    }

    /// The absolute value.
    pub fn abs(self) -> (r: FixWide)
        requires
            self@ != i128::MIN,
        ensures
            r@ == if self@ < 0 { -self@ } else { self@ },
    {
        if self.bits < 0 {
            FixWide { bits: -self.bits }
        } else {
            self
        }
    }

    /// True when [`FixWide::narrow`] can represent this number.
    pub open spec fn narrows(self) -> bool {
        fits_i64(self@ / WIDEN_FACTOR as int)
    }

    /// Tells whether this number lies in the range of the storage scalar.
    pub fn can_narrow(self) -> (r: bool)
        ensures
            r == self.narrows(),
    {
        -0x2000_0000_0000_0000_0000_0000_0000i128 <= self.bits && self.bits
            < 0x2000_0000_0000_0000_0000_0000_0000i128
    }

    /// The number in the storage scalar, its 46 extra fractional bits cut
    /// off: the largest storage number that is not above it.
    pub fn narrow(self) -> (r: FixOrigin)
        requires
            self.narrows(),
        ensures
            r@ == self@ / WIDEN_FACTOR as int,
    {
        FixOrigin { bits: wide_to_storage(self.bits) }
    }
}

impl Neg for FixOrigin {
    type Output = FixOrigin;

    fn neg(self) -> (r: FixOrigin) {
        FixOrigin { bits: -self.bits }
    }
}

impl NegSpecImpl for FixOrigin {
    open spec fn obeys_neg_spec() -> bool {
        true
    }

    open spec fn neg_req(self) -> bool {
        fits_i64(-self@)
    }

    open spec fn neg_spec(self) -> FixOrigin {
        FixOrigin { bits: (-self@) as i64 }
    }
}

impl Add for FixOrigin {
    type Output = FixOrigin;

    fn add(self, rhs: FixOrigin) -> (r: FixOrigin) {
        FixOrigin { bits: self.bits + rhs.bits }
    }
}

impl AddSpecImpl for FixOrigin {
    open spec fn obeys_add_spec() -> bool {
        true
    }

    open spec fn add_req(self, rhs: FixOrigin) -> bool {
        fits_i64(self@ + rhs@)
    }

    open spec fn add_spec(self, rhs: FixOrigin) -> FixOrigin {
        FixOrigin { bits: (self@ + rhs@) as i64 }
    }
}

impl Sub for FixOrigin {
    type Output = FixOrigin;

    fn sub(self, rhs: FixOrigin) -> (r: FixOrigin) {
        FixOrigin { bits: self.bits - rhs.bits }
    }
}

impl SubSpecImpl for FixOrigin {
    open spec fn obeys_sub_spec() -> bool {
        true
    }

    open spec fn sub_req(self, rhs: FixOrigin) -> bool {
        fits_i64(self@ - rhs@)
    }

    open spec fn sub_spec(self, rhs: FixOrigin) -> FixOrigin {
        FixOrigin { bits: (self@ - rhs@) as i64 }
    }
}

impl Mul for FixOrigin {
    type Output = FixOrigin;

    fn mul(self, rhs: FixOrigin) -> (r: FixOrigin) {
        FixOrigin { bits: storage_mul(self.bits, rhs.bits) }
    }
}

impl MulSpecImpl for FixOrigin {
    open spec fn obeys_mul_spec() -> bool {
        true
    }

    open spec fn mul_req(self, rhs: FixOrigin) -> bool {
        fits_i64(fx_mul(self@, rhs@, STORAGE_ONE as int))
    }

    open spec fn mul_spec(self, rhs: FixOrigin) -> FixOrigin {
        FixOrigin { bits: fx_mul(self@, rhs@, STORAGE_ONE as int) as i64 }
    }
}

impl Div for FixOrigin {
    type Output = FixOrigin;

    fn div(self, rhs: FixOrigin) -> (r: FixOrigin) {
        FixOrigin { bits: storage_div(self.bits, rhs.bits) }
    }
}

impl DivSpecImpl for FixOrigin {
    open spec fn obeys_div_spec() -> bool {
        true
    }

    open spec fn div_req(self, rhs: FixOrigin) -> bool {
        rhs@ != 0 && fits_i64(fx_div(self@, rhs@, STORAGE_ONE as int))
    }

    open spec fn div_spec(self, rhs: FixOrigin) -> FixOrigin {
        FixOrigin { bits: fx_div(self@, rhs@, STORAGE_ONE as int) as i64 }
    }
}

impl Neg for FixWide {
    type Output = FixWide;

    fn neg(self) -> (r: FixWide) {
        FixWide { bits: -self.bits }
    }
}

impl NegSpecImpl for FixWide {
    open spec fn obeys_neg_spec() -> bool {
        true
    }

    open spec fn neg_req(self) -> bool {
        fits_i128(-self@)
    }

    open spec fn neg_spec(self) -> FixWide {
        FixWide { bits: (-self@) as i128 }
    }
}

impl Add for FixWide {
    type Output = FixWide;

    fn add(self, rhs: FixWide) -> (r: FixWide) {
        FixWide { bits: self.bits + rhs.bits }
    }
}

impl AddSpecImpl for FixWide {
    open spec fn obeys_add_spec() -> bool {
        true
    }

    open spec fn add_req(self, rhs: FixWide) -> bool {
        fits_i128(self@ + rhs@)
    }

    open spec fn add_spec(self, rhs: FixWide) -> FixWide {
        FixWide { bits: (self@ + rhs@) as i128 }
    }
}

impl Sub for FixWide {
    type Output = FixWide;

    fn sub(self, rhs: FixWide) -> (r: FixWide) {
        FixWide { bits: self.bits - rhs.bits }
    }
}

impl SubSpecImpl for FixWide {
    open spec fn obeys_sub_spec() -> bool {
        true
    }

    open spec fn sub_req(self, rhs: FixWide) -> bool {
        fits_i128(self@ - rhs@)
    }

    open spec fn sub_spec(self, rhs: FixWide) -> FixWide {
        FixWide { bits: (self@ - rhs@) as i128 }
    }
}

impl Mul for FixWide {
    type Output = FixWide;

    fn mul(self, rhs: FixWide) -> (r: FixWide) {
        FixWide { bits: wide_mul(self.bits, rhs.bits) }
    }
}

impl MulSpecImpl for FixWide {
    open spec fn obeys_mul_spec() -> bool {
        true
    }

    open spec fn mul_req(self, rhs: FixWide) -> bool {
        fits_i128(fx_mul(self@, rhs@, WIDE_ONE as int))
    }

    open spec fn mul_spec(self, rhs: FixWide) -> FixWide {
        FixWide { bits: fx_mul(self@, rhs@, WIDE_ONE as int) as i128 }
    }
}

impl Div for FixWide {
    type Output = FixWide;

    fn div(self, rhs: FixWide) -> (r: FixWide) {
        FixWide { bits: wide_div(self.bits, rhs.bits) }
    }
}

impl DivSpecImpl for FixWide {
    open spec fn obeys_div_spec() -> bool {
        true
    }

    open spec fn div_req(self, rhs: FixWide) -> bool {
        rhs@ != 0 && fits_i128(fx_div(self@, rhs@, WIDE_ONE as int))
    }

    open spec fn div_spec(self, rhs: FixWide) -> FixWide {
        FixWide { bits: fx_div(self@, rhs@, WIDE_ONE as int) as i128 }
    }
}

} // verus!
