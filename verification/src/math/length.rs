//! How well a rotation keeps the length of a vector.
//!
//! The rotation formula without any rounding, times the square of the raw
//! value of 1.0, is a vector of integers. Its squared norm differs from
//! that of the vector it rotates by a term in proportion to how far the
//! quaternion is from a unit quaternion, and the computed rotation differs
//! from it by the roundings alone.

use crate::math::algebra::{
    lemma_as_combination, lemma_combination_norm, lemma_dist3, lemma_double_cross,
    lemma_lagrange, lemma_orthogonal, lemma_regroup, lemma_regroup3, lemma_rotation_scalars,
};
use crate::math::bounds::{
    lemma_product_bound, lemma_square_nonneg, lemma_three_products_bound, lemma_unit_pair,
    lemma_unit_rotate_wide_bound, magnitude,
};
use crate::math::model::{
    lemma_widen_factor_storage, rotate_inner, rotate_model, rotate_wide, unit_tolerance, RawQuat,
    RawVec3,
};
use crate::math::scalar::{STORAGE_ONE, WIDEN_FACTOR, WIDE_ONE};
use vstd::prelude::*;

verus! {

/// The square of the raw value of 1.0 in the wide scalar: 2^124.
pub open spec fn wide_one_squared() -> int {
    0x1000_0000_0000_0000_0000_0000_0000_0000
}

/// The cross product of two vectors of integers, nothing rounded.
pub open spec fn exact_cross(a: RawVec3, b: RawVec3) -> RawVec3 {
    RawVec3 {
        x: a.y * b.z - a.z * b.y,
        y: a.z * b.x - a.x * b.z,
        z: a.x * b.y - a.y * b.x,
    }
}

/// The inner term of the rotation, nothing rounded, times the raw value of
/// 1.0: `q_xyz x v + v * w`.
pub open spec fn exact_inner(v: RawVec3, q: RawQuat) -> RawVec3 {
    let u = exact_cross(q.axis(), v);
    RawVec3 { x: u.x + v.x * q.w, y: u.y + v.y * q.w, z: u.z + v.z * q.w }
}

/// The rotation of `v` by `q`, nothing rounded, times the square of the raw
/// value of 1.0: `v + 2 q_xyz x (q_xyz x v + v * w)` over the integers.
pub open spec fn exact_rotation(v: RawVec3, q: RawQuat) -> RawVec3 {
    let c = exact_cross(q.axis(), exact_inner(v, q));
    RawVec3 {
        x: wide_one_squared() * v.x + 2 * c.x,
        y: wide_one_squared() * v.y + 2 * c.y,
        z: wide_one_squared() * v.z + 2 * c.z,
    }
}

/// How far the squared norm of `q` lies from 1, as a raw value of twice
/// the wide scalar's fractional bits: 0 for an exact unit quaternion.
pub open spec fn unit_defect(q: RawQuat) -> int {
    q.norm2() - wide_one_squared()
}

/// What the roundings of the wide rotation amount to: the computed
/// rotation, times the square of the raw value of 1.0, less the exact one.
pub open spec fn rounding_error(v: RawVec3, q: RawQuat) -> RawVec3 {
    let r = rotate_wide(v, q);
    let p = exact_rotation(v, q);
    RawVec3 {
        x: wide_one_squared() * r.x - p.x,
        y: wide_one_squared() * r.y - p.y,
        z: wide_one_squared() * r.z - p.z,
    }
}

/// The vector part of `q` dotted with `v`, nothing rounded.
pub open spec fn axis_dot(v: RawVec3, q: RawQuat) -> int {
    q.x * v.x + q.y * v.y + q.z * v.z
}

/// The squared norm of the vector part of `q`, nothing rounded.
pub open spec fn axis_norm2(q: RawQuat) -> int {
    q.x * q.x + q.y * q.y + q.z * q.z
}

/// The exact rotation as a combination of the vector, the vector part of
/// the quaternion and their cross product:
/// `(W^2 - 2 |q_xyz|^2) v + 2 (q_xyz . v) q_xyz + 2 w (q_xyz x v)`.
pub open spec fn rotation_form(v: RawVec3, q: RawQuat) -> RawVec3 {
    let al = wide_one_squared() - 2 * axis_norm2(q);
    let be = 2 * axis_dot(v, q);
    let ga = 2 * q.w;
    let u = exact_cross(q.axis(), v);
    RawVec3 {
        x: al * v.x + be * q.x + ga * u.x,
        y: al * v.y + be * q.y + ga * u.y,
        z: al * v.z + be * q.z + ga * u.z,
    }
}

/// The exact rotation is the combination [`rotation_form`].
pub proof fn lemma_rotation_form(v: RawVec3, q: RawQuat)
    ensures
        exact_rotation(v, q) == rotation_form(v, q),
{
    let o = wide_one_squared();
    let (a, b, c, w) = (q.x, q.y, q.z, q.w);
    let (x, y, z) = (v.x, v.y, v.z);
    let u = exact_cross(q.axis(), v);
    let s = a * x + b * y + c * z;
    let m = a * a + b * b + c * c;
    lemma_double_cross(a, b, c, w, x, y, z);
    lemma_double_cross(b, c, a, w, y, z, x);
    lemma_double_cross(c, a, b, w, z, x, y);
    assert(b * y + c * z + a * x == s);
    assert(c * z + a * x + b * y == s);
    assert(b * b + c * c + a * a == m);
    assert(c * c + a * a + b * b == m);
    let t = exact_inner(v, q);
    let cc = exact_cross(q.axis(), t);
    assert(cc.x == s * a - m * x + w * u.x);
    assert(cc.y == s * b - m * y + w * u.y);
    assert(cc.z == s * c - m * z + w * u.z);
    lemma_as_combination(o, m, s, w, x, a, u.x);
    lemma_as_combination(o, m, s, w, y, b, u.y);
    lemma_as_combination(o, m, s, w, z, c, u.z);
}

/// The exact rotation keeps the length of a vector up to the unit defect of
/// the quaternion: the squared norm of the rotated vector is that of the
/// vector, plus four times the defect times the squared norm of the cross
/// product of the quaternion's vector part and the vector. For an exact
/// unit quaternion the two squared norms are equal.
pub proof fn lemma_exact_rotation_norm(v: RawVec3, q: RawQuat)
    ensures
        exact_rotation(v, q).norm2() == (wide_one_squared() * wide_one_squared()) * v.norm2() + 4
            * (unit_defect(q) * exact_cross(q.axis(), v).norm2()),
{
    let o = wide_one_squared();
    let (a, b, c, w) = (q.x, q.y, q.z, q.w);
    let (x, y, z) = (v.x, v.y, v.z);
    let u = exact_cross(q.axis(), v);
    let p = exact_rotation(v, q);
    let s = a * x + b * y + c * z;
    let m = a * a + b * b + c * c;
    let n = x * x + y * y + z * z;
    lemma_rotation_form(v, q);
    let al = o - 2 * m;
    let be = 2 * s;
    let ga = 2 * w;
    assert(p.x == al * x + be * a + ga * u.x);
    assert(p.y == al * y + be * b + ga * u.y);
    assert(p.z == al * z + be * c + ga * u.z);
    lemma_combination_norm(al, be, ga, x, y, z, a, b, c, u.x, u.y, u.z);
    lemma_orthogonal(a, b, c, x, y, z);
    let vu = x * u.x + y * u.y + z * u.z;
    let qu = a * u.x + b * u.y + c * u.z;
    assert(vu == 0);
    assert(qu == 0);
    assert((al * ga) * vu == 0) by (nonlinear_arith)
        requires
            vu == 0,
    ;
    assert((be * ga) * qu == 0) by (nonlinear_arith)
        requires
            qu == 0,
    ;
    lemma_lagrange(a, b, c, x, y, z);
    let uu = u.norm2();
    assert(uu == m * n - s * s);
    lemma_rotation_scalars(o, m, s, w, n, uu);
    assert(p.norm2() == (al * al) * n + (be * be) * m + (ga * ga) * uu + 2 * ((al * be) * s));
    assert(unit_defect(q) == w * w + m - o);
}

/// One component of the rounding error. With `tz` and `ty` the computed
/// inner term, which lies less than `2 W` below and less than `W` above the
/// exact one `ez`, `ey` over `W`, the computed cross product `cc` with the
/// pair `b`, `c` of quaternion components lies within `4 W^2` of the exact
/// one, over `W^2`.
proof fn lemma_cross_rounding(b: int, c: int, tz: int, ty: int, ez: int, ey: int, cc: int)
    requires
        magnitude(b) + magnitude(c) <= 3 * (WIDE_ONE as int / 2),
        -2 * WIDE_ONE as int <= WIDE_ONE as int * tz - ez <= WIDE_ONE as int,
        -2 * WIDE_ONE as int <= WIDE_ONE as int * ty - ey <= WIDE_ONE as int,
        cc == (b * tz) / WIDE_ONE as int - (c * ty) / WIDE_ONE as int,
    ensures
        -4 * wide_one_squared() <= wide_one_squared() * cc - (b * ez - c * ey) <= 4
            * wide_one_squared(),
{
    let one = WIDE_ONE as int;
    let dz = one * tz - ez;
    let dy = one * ty - ey;
    let e = one * cc - (b * tz - c * ty);
    assert(-one < e < one);
    lemma_regroup3(one, b, tz);
    lemma_regroup3(one, c, ty);
    assert(b * (one * tz) == b * ez + b * dz) by (nonlinear_arith)
        requires
            one * tz == ez + dz,
    ;
    assert(c * (one * ty) == c * ey + c * dy) by (nonlinear_arith)
        requires
            one * ty == ey + dy,
    ;
    lemma_three_products_bound(b, dz, c, dy, 0, 0, 3 * (one / 2), 2 * one);
    assert(one * (one * cc) == one * (b * tz) - one * (c * ty) + one * e);
    assert(one * (one * cc) == wide_one_squared() * cc);
}

/// The roundings of the wide rotation by a unit quaternion amount to no
/// more than 8 raw steps of the wide scalar in each component, whatever the
/// vector: each component of the rounding error has magnitude at most
/// `8 W^2`.
pub proof fn lemma_rounding_error(v: RawVec3, q: RawQuat)
    requires
        q.is_unit(),
    ensures
        rounding_error(v, q).within(-8 * wide_one_squared(), 8 * wide_one_squared()),
{
    let one = WIDE_ONE as int;
    let t = rotate_inner(v, q);
    let et = exact_inner(v, q);
    lemma_unit_pair(q.y, q.z, q.x, q.w);
    lemma_unit_pair(q.z, q.x, q.y, q.w);
    lemma_unit_pair(q.x, q.y, q.z, q.w);
    let c = q.axis().cross(t, one);
    lemma_cross_rounding(q.y, q.z, t.z, t.y, et.z, et.y, c.x);
    lemma_cross_rounding(q.z, q.x, t.x, t.z, et.x, et.z, c.y);
    lemma_cross_rounding(q.x, q.y, t.y, t.x, et.y, et.x, c.z);
    assert(c.scaled(2 * one, one).x == 2 * c.x);
    assert(c.scaled(2 * one, one).y == 2 * c.y);
    assert(c.scaled(2 * one, one).z == 2 * c.z);
}


/// How far the square of `p + g` lies from the square of `p`, for `p` of
/// magnitude at most `o a1` and `g` of magnitude at most `o a2`.
proof fn lemma_perturbed_square(p: int, g: int, o: int, a1: int, a2: int)
    by (nonlinear_arith)
    requires
        0 <= o,
        -(o * a1) <= p <= o * a1,
        -(o * a2) <= g <= o * a2,
    ensures
        -((o * o) * (2 * (a1 * a2) + a2 * a2)) <= (p + g) * (p + g) - p * p <= (o * o) * (2 * (a1
            * a2) + a2 * a2),
{
    let pb = o * a1;
    let gb = o * a2;
    assert((p + g) * (p + g) - p * p == 2 * (p * g) + g * g);
    assert(-(pb * gb) <= p * g <= pb * gb);
    assert(0 <= g * g <= gb * gb);
    assert(pb * gb == (o * o) * (a1 * a2));
    assert(gb * gb == (o * o) * (a2 * a2));
}

/// What cutting a wide component `r` down to `c = r / f` adds to its
/// rounding error `o r - p`: `o f c` lies at most `o (f + 8)` below `p` and
/// at most `8 o` above it.
pub proof fn lemma_narrowing_error(o: int, f: int, r: int, c: int, p: int)
    by (nonlinear_arith)
    requires
        0 < o,
        0 < f,
        f * c <= r < f * c + f,
        -8 * o <= o * r - p <= 8 * o,
    ensures
        -(o * (f + 8)) <= (o * f) * c - p <= 8 * o,
{
    assert((o * f) * c == o * (f * c));
    assert(o * (f * c) <= o * r);
    assert(o * r < o * (f * c + f));
    assert(o * (f * c + f) == o * (f * c) + o * f);
}

/// What the rotation of a vector of storage scalars lacks of the exact
/// rotation: the computed vector, on the scale of the exact one, less the
/// exact one.
pub open spec fn rotation_error(v: RawVec3, q: RawQuat) -> RawVec3 {
    let out = rotate_model(v, q, STORAGE_ONE as int);
    let exact = exact_rotation(v.widened(WIDEN_FACTOR as int), q);
    let scale = wide_one_squared() * WIDEN_FACTOR as int;
    RawVec3 { x: scale * out.x - exact.x, y: scale * out.y - exact.y, z: scale * out.z - exact.z }
}

/// Accuracy. The rotation of a vector of storage scalars by a unit
/// quaternion is the exact rotation cut down: each coordinate lies less
/// than one raw step of the storage scalar and 8 raw steps of the wide
/// scalar below the exact one, and at most 8 raw steps of the wide scalar
/// above it, whatever the magnitude of the vector.
pub proof fn lemma_rotation_accuracy(v: RawVec3, q: RawQuat)
    requires
        q.is_unit(),
    ensures
        rotation_error(v, q).within(
            -(wide_one_squared() * (WIDEN_FACTOR as int + 8)),
            8 * wide_one_squared(),
        ),
{
    let o = wide_one_squared();
    let f = WIDEN_FACTOR as int;
    lemma_widen_factor_storage();
    let wv = v.widened(f);
    let r = rotate_wide(wv, q);
    let p = exact_rotation(wv, q);
    let out = rotate_model(v, q, STORAGE_ONE as int);
    assert(out == r.narrowed(f));
    lemma_rounding_error(wv, q);
    lemma_narrowing_error(o, f, r.x, out.x, p.x);
    lemma_narrowing_error(o, f, r.y, out.y, p.y);
    lemma_narrowing_error(o, f, r.z, out.z, p.z);
}

/// The tolerance within which a rotation keeps the squared norm of a vector
/// of storage scalars, times 2^124: for coordinates of raw magnitude at
/// most `m` and a quaternion of unit defect `d`, in squared raw steps,
/// `43 m + 4` for the roundings and `27 |d| m^2 / 2^124` for the defect.
pub open spec fn length_tolerance(m: int, d: int) -> int {
    27 * (magnitude(d) * (m * m)) + wide_one_squared() * (43 * m + 4)
}

/// Length preservation. A rotation by a unit quaternion keeps the squared
/// norm of a vector of storage scalars, taken exactly over the raw values,
/// within [`length_tolerance`]: the change is in proportion to the
/// magnitude where it comes from the roundings, and in proportion to the
/// squared magnitude and the unit defect of the quaternion otherwise.
pub proof fn lemma_length_kept(v: RawVec3, q: RawQuat, m: int)
    requires
        q.is_unit(),
        v.within(-m, m),
    ensures
        -length_tolerance(m, unit_defect(q)) <= wide_one_squared() * (rotate_model(
            v,
            q,
            STORAGE_ONE as int,
        ).norm2() - v.norm2()) <= length_tolerance(m, unit_defect(q)),
{
    let o = wide_one_squared();
    let f = WIDEN_FACTOR as int;
    let one = WIDE_ONE as int;
    let kk = o * f;
    lemma_widen_factor_storage();
    let wv = v.widened(f);
    let r = rotate_wide(wv, q);
    let out = r.narrowed(f);
    assert(out == rotate_model(v, q, STORAGE_ONE as int));
    let p = exact_rotation(wv, q);
    let k = m * f;
    lemma_unit_rotate_wide_bound(wv, q, k);
    lemma_rounding_error(wv, q);
    lemma_exact_rotation_norm(wv, q);
    let gx = kk * out.x - p.x;
    let gy = kk * out.y - p.y;
    let gz = kk * out.z - p.z;
    let a1 = 7 * k + 16;
    let a2 = f + 8;
    lemma_narrowing_error(o, f, r.x, out.x, p.x);
    lemma_narrowing_error(o, f, r.y, out.y, p.y);
    lemma_narrowing_error(o, f, r.z, out.z, p.z);
    assert(-(o * a1) <= p.x <= o * a1 && -(o * a1) <= p.y <= o * a1 && -(o * a1) <= p.z <= o * a1);
    lemma_perturbed_square(p.x, gx, o, a1, a2);
    lemma_perturbed_square(p.y, gy, o, a1, a2);
    lemma_perturbed_square(p.z, gz, o, a1, a2);
    // the squared norm of the result, scaled
    lemma_regroup(kk, out.x, kk, out.x);
    lemma_regroup(kk, out.y, kk, out.y);
    lemma_regroup(kk, out.z, kk, out.z);
    lemma_dist3(kk * kk, out.x * out.x, out.y * out.y, out.z * out.z);
    assert((kk * kk) * out.norm2() - p.norm2() <= 3 * ((o * o) * (2 * (a1 * a2) + a2 * a2)));
    assert((kk * kk) * out.norm2() - p.norm2() >= -3 * ((o * o) * (2 * (a1 * a2) + a2 * a2)));
    // the squared norm of the vector, scaled
    lemma_regroup(v.x, f, v.x, f);
    lemma_regroup(v.y, f, v.y, f);
    lemma_regroup(v.z, f, v.z, f);
    lemma_dist3(f * f, v.x * v.x, v.y * v.y, v.z * v.z);
    assert(wv.norm2() == (f * f) * v.norm2());
    assert((o * o) * wv.norm2() == (kk * kk) * v.norm2()) by (nonlinear_arith)
        requires
            wv.norm2() == (f * f) * v.norm2(),
            kk == o * f,
    ;
    // the cross product is small
    let u = exact_cross(q.axis(), wv);
    let c1 = 3 * (one / 2);
    lemma_unit_pair(q.y, q.z, q.x, q.w);
    lemma_unit_pair(q.z, q.x, q.y, q.w);
    lemma_unit_pair(q.x, q.y, q.z, q.w);
    lemma_three_products_bound(q.y, wv.z, q.z, wv.y, 0, 0, c1, k);
    lemma_three_products_bound(q.z, wv.x, q.x, wv.z, 0, 0, c1, k);
    lemma_three_products_bound(q.x, wv.y, q.y, wv.x, 0, 0, c1, k);
    let ub = c1 * k;
    lemma_product_bound(u.x, u.x, ub, ub);
    lemma_product_bound(u.y, u.y, ub, ub);
    lemma_product_bound(u.z, u.z, ub, ub);
    lemma_square_nonneg(u.x);
    lemma_square_nonneg(u.y);
    lemma_square_nonneg(u.z);
    let uu = u.norm2();
    assert(0 <= uu <= 3 * (ub * ub));
    let mm = m * m;
    assert(4 * (3 * (ub * ub)) == 27 * ((o * (f * f)) * mm)) by (nonlinear_arith)
        requires
            ub == c1 * (m * f),
            4 * (c1 * c1) == 9 * o,
            mm == m * m,
    ;
    let d = unit_defect(q);
    let da = magnitude(d);
    lemma_product_bound(d, uu, da, uu);
    assert(da * uu <= da * (3 * (ub * ub))) by (nonlinear_arith)
        requires
            0 <= da,
            uu <= 3 * (ub * ub),
    ;
    assert(4 * (da * (3 * (ub * ub))) == 27 * ((o * (f * f)) * (da * mm))) by (nonlinear_arith)
        requires
            4 * (3 * (ub * ub)) == 27 * ((o * (f * f)) * mm),
    ;
    // all together
    let on = out.norm2();
    let vn = v.norm2();
    let delta = on - vn;
    assert((kk * kk) * delta == (kk * kk) * on - (kk * kk) * vn) by (nonlinear_arith)
        requires
            delta == on - vn,
    ;
    assert(3 * ((o * o) * (2 * (a1 * a2) + a2 * a2)) <= (o * o) * ((f * f) * (43 * m + 4)))
        by (nonlinear_arith)
        requires
            a1 == 7 * (m * f) + 16,
            a2 == f + 8,
            f == 0x4000_0000_0000,
            0 <= m,
            0 <= o,
    ;
    assert((kk * kk) * delta == (o * (f * f)) * (o * delta)) by (nonlinear_arith)
        requires
            kk == o * f,
    ;
    let tol = length_tolerance(m, d);
    assert(27 * ((o * (f * f)) * (da * mm)) + (o * o) * ((f * f) * (43 * m + 4)) == (o * (f * f))
        * tol) by (nonlinear_arith)
        requires
            tol == 27 * (da * mm) + o * (43 * m + 4),
    ;
    assert(-tol <= o * delta <= tol) by (nonlinear_arith)
        requires
            (o * (f * f)) * (o * delta) <= (o * (f * f)) * tol,
            (o * (f * f)) * (o * delta) >= -((o * (f * f)) * tol),
            0 < o * (f * f),
    ;
}

/// The exact rotation is nearly an isometry. For a unit quaternion and a
/// vector whose components have magnitude at most `g`, each component of
/// the exact rotation has magnitude at most `7/4 W^2 g`: little more than
/// the square root of 3 times `W^2 g`.
pub proof fn lemma_exact_rotation_bound(v: RawVec3, q: RawQuat, g: int)
    requires
        q.is_unit(),
        v.within(-g, g),
    ensures
        -7 * (wide_one_squared() * g) <= 4 * exact_rotation(v, q).x <= 7 * (wide_one_squared() * g),
        -7 * (wide_one_squared() * g) <= 4 * exact_rotation(v, q).y <= 7 * (wide_one_squared() * g),
        -7 * (wide_one_squared() * g) <= 4 * exact_rotation(v, q).z <= 7 * (wide_one_squared() * g),
{
    let o = wide_one_squared();
    let tau = unit_tolerance();
    let c1 = 3 * (WIDE_ONE as int / 2);
    let p = exact_rotation(v, q);
    lemma_exact_rotation_norm(v, q);
    lemma_product_bound(v.x, v.x, g, g);
    lemma_product_bound(v.y, v.y, g, g);
    lemma_product_bound(v.z, v.z, g, g);
    let gg = g * g;
    let n = v.norm2();
    assert(n <= 3 * gg);
    let u = exact_cross(q.axis(), v);
    lemma_unit_pair(q.y, q.z, q.x, q.w);
    lemma_unit_pair(q.z, q.x, q.y, q.w);
    lemma_unit_pair(q.x, q.y, q.z, q.w);
    lemma_three_products_bound(q.y, v.z, q.z, v.y, 0, 0, c1, g);
    lemma_three_products_bound(q.z, v.x, q.x, v.z, 0, 0, c1, g);
    lemma_three_products_bound(q.x, v.y, q.y, v.x, 0, 0, c1, g);
    let ub = c1 * g;
    lemma_product_bound(u.x, u.x, ub, ub);
    lemma_product_bound(u.y, u.y, ub, ub);
    lemma_product_bound(u.z, u.z, ub, ub);
    lemma_square_nonneg(u.x);
    lemma_square_nonneg(u.y);
    lemma_square_nonneg(u.z);
    let uu = u.norm2();
    assert(0 <= uu <= 3 * (ub * ub));
    let d = unit_defect(q);
    assert(-tau <= d <= tau);
    lemma_product_bound(d, uu, tau, uu);
    assert(4 * (c1 * c1) == 9 * o) by (nonlinear_arith)
        requires
            c1 == 0x6000_0000_0000_0000,
            o == 0x1000_0000_0000_0000_0000_0000_0000_0000,
    ;
    assert(4 * (tau * uu) <= 27 * ((tau * o) * gg)) by (nonlinear_arith)
        requires
            0 <= uu <= 3 * (ub * ub),
            ub == c1 * g,
            4 * (c1 * c1) == 9 * o,
            gg == g * g,
            0 <= tau,
    ;
    assert((o * o) * n <= 3 * ((o * o) * gg)) by (nonlinear_arith)
        requires
            n <= 3 * gg,
    ;
    let pn = p.norm2();
    assert(16 * pn <= 49 * ((o * o) * gg)) by (nonlinear_arith)
        requires
            pn <= 3 * ((o * o) * gg) + 27 * ((tau * o) * gg),
            432 * tau <= o,
            0 <= gg,
            0 <= o,
            0 <= tau,
    ;
    let b = 7 * (o * g);
    assert(b * b == 49 * ((o * o) * gg)) by (nonlinear_arith)
        requires
            b == 7 * (o * g),
            gg == g * g,
    ;
    lemma_square_nonneg(p.x);
    lemma_square_nonneg(p.y);
    lemma_square_nonneg(p.z);
    lemma_component_bound(p.x, pn, b);
    lemma_component_bound(p.y, pn, b);
    lemma_component_bound(p.z, pn, b);
}

/// A number whose square is at most `n`, with `16 n <= b^2`, has four
/// times its magnitude at most `b`.
proof fn lemma_component_bound(x: int, n: int, b: int)
    by (nonlinear_arith)
    requires
        x * x <= n,
        16 * n <= b * b,
        0 <= b,
    ensures
        -b <= 4 * x <= b,
{
}

} // verus!
