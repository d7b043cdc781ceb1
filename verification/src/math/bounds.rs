//! Bounds on products and on the values that a rotation by a unit
//! quaternion passes through.

use crate::math::model::{
    between, rotate_inner, rotate_wide_fits, unit_tolerance, RawQuat, RawVec3,
};
use crate::math::scalar::{fx_mul, WIDE_ONE};
use vstd::prelude::*;

verus! {

/// The magnitude of `x`.
pub open spec fn magnitude(x: int) -> int {
    if x < 0 {
        -x
    } else {
        x
    }
}

/// A product is bounded by the product of the bounds of its factors.
pub proof fn lemma_product_bound(a: int, b: int, ca: int, cb: int)
    by (nonlinear_arith)
    requires
        -ca <= a <= ca,
        -cb <= b <= cb,
    ensures
        -(ca * cb) <= a * b <= ca * cb,
{
}

/// `a1 * b1 - a2 * b2 + b3 * a3` is bounded by `c * k`, where `k` bounds
/// each `b` and `c` bounds the sum of the magnitudes of the `a`.
pub proof fn lemma_three_products_bound(
    a1: int,
    b1: int,
    a2: int,
    b2: int,
    a3: int,
    b3: int,
    c: int,
    k: int,
)
    requires
        -k <= b1 <= k,
        -k <= b2 <= k,
        -k <= b3 <= k,
        magnitude(a1) + magnitude(a2) + magnitude(a3) <= c,
    ensures
        -(c * k) <= a1 * b1 - a2 * b2 + b3 * a3 <= c * k,
{
    let m1 = magnitude(a1);
    let m2 = magnitude(a2);
    let m3 = magnitude(a3);
    lemma_product_bound(a1, b1, m1, k);
    lemma_product_bound(a2, b2, m2, k);
    lemma_product_bound(b3, a3, k, m3);
    assert(m1 * k + m2 * k + k * m3 <= c * k) by (nonlinear_arith)
        requires
            0 <= m1,
            0 <= m2,
            0 <= m3,
            m1 + m2 + m3 <= c,
            0 <= k,
    ;
}

/// For `|c| > b >= 0` the square of `c` is at least that of `b + 1`.
pub proof fn lemma_square_above(c: int, b: int)
    by (nonlinear_arith)
    requires
        0 <= b,
        c > b || c < -b,
    ensures
        c * c >= (b + 1) * (b + 1),
{
}

/// A square is not negative.
pub proof fn lemma_square_nonneg(a: int)
    by (nonlinear_arith)
    ensures
        0 <= a * a,
{
}

/// `(|a| + |b|)^2 <= 2 (a^2 + b^2)`.
pub proof fn lemma_pair_sum_square(a: int, b: int)
    by (nonlinear_arith)
    ensures
        (magnitude(a) + magnitude(b)) * (magnitude(a) + magnitude(b)) <= 2 * (a * a + b * b),
{
    let x = magnitude(a);
    let y = magnitude(b);
    assert(x * x == a * a);
    assert(y * y == b * b);
    assert(0 <= (x - y) * (x - y));
}

/// `(|a| + |b| + |c|)^2 <= 3 (a^2 + b^2 + c^2)`.
pub proof fn lemma_triple_sum_square(a: int, b: int, c: int)
    by (nonlinear_arith)
    ensures
        (magnitude(a) + magnitude(b) + magnitude(c)) * (magnitude(a) + magnitude(b) + magnitude(c))
            <= 3 * (a * a + b * b + c * c),
{
    let x = magnitude(a);
    let y = magnitude(b);
    let z = magnitude(c);
    assert(x * x == a * a);
    assert(y * y == b * b);
    assert(z * z == c * c);
    assert(0 <= (x - y) * (x - y));
    assert(0 <= (y - z) * (y - z));
    assert(0 <= (x - z) * (x - z));
}

/// A number whose square is at most `b^2` is at most `b`.
pub proof fn lemma_square_root_bound(s: int, b: int)
    by (nonlinear_arith)
    requires
        0 <= s,
        0 <= b,
        s * s <= b * b,
    ensures
        s <= b,
{
}

/// Any two components of a unit quaternion have magnitudes that sum to at
/// most 1.5.
pub proof fn lemma_unit_pair(a: int, b: int, c: int, d: int)
    requires
        a * a + b * b + c * c + d * d <= WIDE_ONE as int * WIDE_ONE as int + unit_tolerance(),
    ensures
        magnitude(a) + magnitude(b) <= 3 * (WIDE_ONE as int / 2),
{
    lemma_square_nonneg(c);
    lemma_square_nonneg(d);
    lemma_pair_sum_square(a, b);
    let s = magnitude(a) + magnitude(b);
    assert(s * s <= 0x6000_0000_0000_0000int * 0x6000_0000_0000_0000int);
    lemma_square_root_bound(s, 0x6000_0000_0000_0000int);
}

/// Any three components of a unit quaternion have magnitudes that sum to at
/// most 2.
pub proof fn lemma_unit_triple(a: int, b: int, c: int, d: int)
    requires
        a * a + b * b + c * c + d * d <= WIDE_ONE as int * WIDE_ONE as int + unit_tolerance(),
    ensures
        magnitude(a) + magnitude(b) + magnitude(c) <= 2 * WIDE_ONE as int,
{
    lemma_square_nonneg(d);
    lemma_triple_sum_square(a, b, c);
    let s = magnitude(a) + magnitude(b) + magnitude(c);
    assert(s * s <= 0x8000_0000_0000_0000int * 0x8000_0000_0000_0000int);
    lemma_square_root_bound(s, 0x8000_0000_0000_0000int);
}


/// The conjugate of a unit quaternion is a unit quaternion.
pub proof fn lemma_conjugate_is_unit(q: RawQuat)
    requires
        q.is_unit(),
    ensures
        q.conjugate().is_unit(),
        q.conjugate().norm2() == q.norm2(),
{
    assert((-q.x) * (-q.x) == q.x * q.x) by (nonlinear_arith);
    assert((-q.y) * (-q.y) == q.y * q.y) by (nonlinear_arith);
    assert((-q.z) * (-q.z) == q.z * q.z) by (nonlinear_arith);
}

/// A fixed-point product in the wide scalar of a factor of magnitude at
/// most 2 and a factor of magnitude at most `k` has magnitude at most
/// `2 k + 1`.
pub proof fn lemma_wide_product_bound(a: int, b: int, k: int)
    requires
        -2 * WIDE_ONE as int <= a <= 2 * WIDE_ONE as int,
        -k <= b <= k,
    ensures
        between(fx_mul(a, b, WIDE_ONE as int), -2 * k - 1, 2 * k),
        between(fx_mul(b, a, WIDE_ONE as int), -2 * k - 1, 2 * k),
{
    lemma_product_bound(a, b, 2 * WIDE_ONE as int, k);
    lemma_product_bound(b, a, k, 2 * WIDE_ONE as int);
}

/// The cross product, in the wide scalar, of the vector part of a unit
/// quaternion with a vector whose components have magnitude at most `k`:
/// each of its six products has magnitude at most `2 k + 1`, and twice
/// a component at most `3 k + 2`.
pub proof fn lemma_unit_cross_bound(q: RawQuat, u: RawVec3, k: int)
    requires
        q.is_unit(),
        u.within(-k, k),
    ensures
        q.axis().cross_fits(u, WIDE_ONE as int, -2 * k - 1, 2 * k + 1),
        q.axis().cross(u, WIDE_ONE as int).plus(q.axis().cross(u, WIDE_ONE as int)).within(
            -3 * k - 2,
            3 * k + 2,
        ),
{
    let one = WIDE_ONE as int;
    lemma_unit_triple(q.x, q.y, q.z, q.w);
    lemma_unit_pair(q.y, q.z, q.x, q.w);
    lemma_unit_pair(q.z, q.x, q.y, q.w);
    lemma_unit_pair(q.x, q.y, q.z, q.w);
    lemma_wide_product_bound(q.y, u.z, k);
    lemma_wide_product_bound(q.z, u.y, k);
    lemma_wide_product_bound(q.z, u.x, k);
    lemma_wide_product_bound(q.x, u.z, k);
    lemma_wide_product_bound(q.x, u.y, k);
    lemma_wide_product_bound(q.y, u.x, k);
    lemma_three_products_bound(q.y, u.z, q.z, u.y, 0, 0, 3 * (one / 2), k);
    lemma_three_products_bound(q.z, u.x, q.x, u.z, 0, 0, 3 * (one / 2), k);
    lemma_three_products_bound(q.x, u.y, q.y, u.x, 0, 0, 3 * (one / 2), k);
}

/// The inner term of the rotation of a wide vector whose components have
/// magnitude at most `k` by a unit quaternion: every operation gives a
/// magnitude of at most `2 k + 2`.
pub proof fn lemma_unit_inner_bound(v: RawVec3, q: RawQuat, k: int)
    requires
        q.is_unit(),
        v.within(-k, k),
    ensures
        q.axis().cross_fits(v, WIDE_ONE as int, -2 * k - 2, 2 * k + 2),
        v.scaled(q.w, WIDE_ONE as int).within(-2 * k - 2, 2 * k + 2),
        rotate_inner(v, q).within(-2 * k - 2, 2 * k + 2),
{
    let one = WIDE_ONE as int;
    lemma_unit_cross_bound(q, v, k);
    lemma_unit_triple(q.y, q.z, q.w, q.x);
    lemma_unit_triple(q.z, q.x, q.w, q.y);
    lemma_unit_triple(q.x, q.y, q.w, q.z);
    lemma_wide_product_bound(q.w, v.x, k);
    lemma_wide_product_bound(q.w, v.y, k);
    lemma_wide_product_bound(q.w, v.z, k);
    lemma_three_products_bound(q.y, v.z, q.z, v.y, q.w, v.x, 2 * one, k);
    lemma_three_products_bound(q.z, v.x, q.x, v.z, q.w, v.y, 2 * one, k);
    lemma_three_products_bound(q.x, v.y, q.y, v.x, q.w, v.z, 2 * one, k);
}

/// The rotation of a wide vector whose components have magnitude at most
/// `k` by a unit quaternion: every operation gives a magnitude of at most
/// `7 k + 8`.
pub proof fn lemma_unit_rotate_wide_bound(v: RawVec3, q: RawQuat, k: int)
    requires
        q.is_unit(),
        v.within(-k, k),
    ensures
        rotate_wide_fits(v, q, -7 * k - 8, 7 * k + 8),
{
    let one = WIDE_ONE as int;
    lemma_unit_inner_bound(v, q, k);
    let t = rotate_inner(v, q);
    lemma_unit_cross_bound(q, t, 2 * k + 2);
    let c = q.axis().cross(t, one);
    assert(fx_mul(c.x, 2 * one, one) == 2 * c.x);
    assert(fx_mul(c.y, 2 * one, one) == 2 * c.y);
    assert(fx_mul(c.z, 2 * one, one) == 2 * c.z);
}

} // verus!
