//! What holds of every vector, scalar and orientation.

use crate::math::convert::ToScalar;
use crate::math::model::{
    lemma_widen_by_one, lemma_widen_factor_storage, rotate_fits, rotate_inner, rotate_model,
    rotate_wide, rotate_wide_fits, RawQuat, RawVec3,
};
use crate::math::scalar::{FixOrigin, FixWide, STORAGE_ONE, WIDEN_FACTOR, WIDE_ONE};
use crate::math::vector::{FixVec3, FixVec3Wide};
use vstd::prelude::*;

verus! {

/// Rotating the zero vector gives the zero vector, whatever the quaternion,
/// unit or not, and in either kind of vector.
pub proof fn lemma_rotate_zero(q: RawQuat)
    ensures
        rotate_fits(RawVec3::zero(), q, STORAGE_ONE as int, i64::MIN as int, i64::MAX as int),
        rotate_model(RawVec3::zero(), q, STORAGE_ONE as int) == RawVec3::zero(),
        rotate_fits(RawVec3::zero(), q, WIDE_ONE as int, i128::MIN as int, i128::MAX as int),
        rotate_model(RawVec3::zero(), q, WIDE_ONE as int) == RawVec3::zero(),
{
    lemma_widen_factor_storage();
    lemma_widen_by_one(RawVec3::zero());
    assert(RawVec3::zero().widened(WIDEN_FACTOR as int) == RawVec3::zero());
    assert(rotate_wide(RawVec3::zero(), q) == RawVec3::zero());
}

/// Rotating a vector of storage scalars by the identity gives the vector
/// itself, exactly.
pub proof fn lemma_rotate_identity(v: FixVec3)
    ensures
        rotate_fits(v@, RawQuat::identity(), STORAGE_ONE as int, i64::MIN as int, i64::MAX as int),
        rotate_model(v@, RawQuat::identity(), STORAGE_ONE as int) == v@,
{
    lemma_widen_factor_storage();
    let w = v@.widened(WIDEN_FACTOR as int);
    assert(rotate_wide(w, RawQuat::identity()) == w);
    assert(w.narrowed(WIDEN_FACTOR as int) == v@);
}

/// Rotating a vector of wide scalars by the identity gives the vector
/// itself, exactly.
pub proof fn lemma_rotate_identity_wide(v: FixVec3Wide)
    ensures
        rotate_fits(v@, RawQuat::identity(), WIDE_ONE as int, i128::MIN as int, i128::MAX as int),
        rotate_model(v@, RawQuat::identity(), WIDE_ONE as int) == v@,
{
    let q = RawQuat::identity();
    let one = WIDE_ONE as int;
    lemma_widen_by_one(v@);
    assert(q.axis().cross(v@, one) == RawVec3::zero());
    assert(v@.scaled(q.w, one) == v@);
    assert(rotate_inner(v@, q) == v@);
    assert(q.axis().cross(v@, one).scaled(2 * one, one) == RawVec3::zero());
    assert(rotate_wide(v@, q) == v@);
    assert(rotate_wide_fits(v@, q, i128::MIN as int, i128::MAX as int));
}

/// A storage scalar brought to the wide scalar and back is the scalar it
/// was: both conversions are defined on it, and nothing is lost.
pub proof fn lemma_storage_wide_storage(s: FixOrigin)
    ensures
        <FixOrigin as ToScalar<FixWide>>::to_scalar_req(s),
        <FixWide as ToScalar<FixOrigin>>::to_scalar_req(
            <FixOrigin as ToScalar<FixWide>>::to_scalar_spec(s),
        ),
        <FixWide as ToScalar<FixOrigin>>::to_scalar_spec(
            <FixOrigin as ToScalar<FixWide>>::to_scalar_spec(s),
        ) == s,
{
}

/// A wide scalar in the range of the storage scalar, brought to the storage
/// scalar and back, lies less than one storage step below the scalar it
/// was, and never above it.
pub proof fn lemma_wide_storage_wide(w: FixWide)
    requires
        <FixWide as ToScalar<FixOrigin>>::to_scalar_req(w),
    ensures
        0 <= w@ - <FixOrigin as ToScalar<FixWide>>::to_scalar_spec(
            <FixWide as ToScalar<FixOrigin>>::to_scalar_spec(w),
        )@ < WIDEN_FACTOR,
{
}

/// A scalar converted to its own kind is unchanged.
pub proof fn lemma_same_kind(s: FixOrigin, w: FixWide)
    ensures
        <FixOrigin as ToScalar<FixOrigin>>::to_scalar_req(s),
        <FixOrigin as ToScalar<FixOrigin>>::to_scalar_spec(s) == s,
        <FixWide as ToScalar<FixWide>>::to_scalar_req(w),
        <FixWide as ToScalar<FixWide>>::to_scalar_spec(w) == w,
{
}

/// Construction is normalized. The same whole number gives the same
/// scalar, of either kind, whether it comes as an `i32`, as a `usize`, as a
/// storage scalar or as a wide scalar: every conversion is defined on it,
/// and vectors made of it by `new` are equal.
pub proof fn lemma_same_number_same_scalar(i: i32, u: usize, s: FixOrigin, w: FixWide)
    requires
        i == u,
        s@ == i * STORAGE_ONE,
        w@ == i * WIDE_ONE,
    ensures
        <usize as ToScalar<FixOrigin>>::to_scalar_req(u),
        <FixWide as ToScalar<FixOrigin>>::to_scalar_req(w),
        <i32 as ToScalar<FixOrigin>>::to_scalar_spec(i) == s,
        <usize as ToScalar<FixOrigin>>::to_scalar_spec(u) == s,
        <FixOrigin as ToScalar<FixOrigin>>::to_scalar_spec(s) == s,
        <FixWide as ToScalar<FixOrigin>>::to_scalar_spec(w) == s,
        <i32 as ToScalar<FixWide>>::to_scalar_spec(i) == w,
        <usize as ToScalar<FixWide>>::to_scalar_spec(u) == w,
        <FixOrigin as ToScalar<FixWide>>::to_scalar_spec(s) == w,
        <FixWide as ToScalar<FixWide>>::to_scalar_spec(w) == w,
{
}

} // verus!
