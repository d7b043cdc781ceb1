//! The supported magnitude: every vector of storage scalars whose
//! coordinates do not exceed
//! [`MAX_COORD`](crate::math::scalar::MAX_COORD) can be rotated by every
//! unit orientation, and the rotation makes no coordinate more than 7/4
//! times as large.

use crate::math::bounds::lemma_unit_rotate_wide_bound;
use crate::math::length::{
    exact_rotation, lemma_exact_rotation_bound, lemma_rounding_error, wide_one_squared,
};
use crate::math::model::{
    lemma_widen_factor_storage, rotate_fits, rotate_model, rotate_wide, RawQuat, RawVec3,
};
use crate::math::scalar::{MAX_COORD, STORAGE_ONE, WIDEN_FACTOR};
use vstd::prelude::*;

verus! {

/// One coordinate of a rotated vector. `p` is the exact coordinate times
/// `o`, `r` the computed wide coordinate, which the roundings put within 8
/// raw steps of it, and `c` what is left of `r` in the storage scalar.
proof fn lemma_coordinate_growth(o: int, f: int, m: int, p: int, r: int, c: int)
    by (nonlinear_arith)
    requires
        0 < o,
        f == 0x4000_0000_0000,
        -7 * (o * (m * f)) <= 4 * p <= 7 * (o * (m * f)),
        -8 * o <= o * r - p <= 8 * o,
        f * c <= r < f * c + f,
    ensures
        -7 * m - 4 <= 4 * c <= 7 * m,
{
    assert(o * (4 * r) <= o * (7 * (m * f) + 32));
    assert(o * (4 * r) >= o * (-7 * (m * f) - 32));
    assert(4 * r <= 7 * (m * f) + 32);
    assert(4 * r >= -7 * (m * f) - 32);
    assert(f * (4 * c - 7 * m) <= 32);
    assert(f * (4 * c + 7 * m + 4) > -32);
}

/// The documented range. A vector of storage scalars whose coordinates have
/// raw magnitude at most `m`, with `m` at most
/// [`MAX_COORD`](crate::math::scalar::MAX_COORD), can be rotated by every
/// unit orientation: no operation of the rotation overflows, and four times
/// a coordinate of the result has a raw magnitude of at most `7 m + 4`.
pub proof fn lemma_rotate_in_range(v: RawVec3, q: RawQuat, m: int)
    requires
        q.is_unit(),
        v.within(-m, m),
        m <= MAX_COORD,
    ensures
        rotate_fits(v, q, STORAGE_ONE as int, i64::MIN as int, i64::MAX as int),
        rotate_model(v, q, STORAGE_ONE as int).times(4).within(-7 * m - 4, 7 * m),
{
    let o = wide_one_squared();
    let f = WIDEN_FACTOR as int;
    lemma_widen_factor_storage();
    let wide = v.widened(f);
    let k = m * f;
    lemma_unit_rotate_wide_bound(wide, q, k);
    lemma_exact_rotation_bound(wide, q, k);
    lemma_rounding_error(wide, q);
    let p = exact_rotation(wide, q);
    let r = rotate_wide(wide, q);
    let out = rotate_model(v, q, STORAGE_ONE as int);
    assert(out == r.narrowed(f));
    lemma_coordinate_growth(o, f, m, p.x, r.x, out.x);
    lemma_coordinate_growth(o, f, m, p.y, r.y, out.y);
    lemma_coordinate_growth(o, f, m, p.z, r.z, out.z);
}

} // verus!
