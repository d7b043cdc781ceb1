//! A rotation and then the inverse rotation: how near the vector comes back
//! to where it was.

use crate::math::algebra::{lemma_dist3, lemma_double_cross, lemma_orthogonal, lemma_regroup3};
use crate::math::bounds::{
    lemma_conjugate_is_unit, lemma_product_bound, lemma_three_products_bound, lemma_unit_pair,
    magnitude,
};
use crate::math::range::lemma_rotate_in_range;
use crate::math::length::{
    axis_dot, axis_norm2, exact_cross, exact_rotation, lemma_exact_rotation_bound,
    lemma_narrowing_error, lemma_rotation_form, lemma_rounding_error, rounding_error,
    unit_defect, wide_one_squared,
};
use crate::math::model::{
    lemma_widen_factor_storage, rotate_fits, rotate_model, rotate_wide, RawQuat, RawVec3,
};
use crate::math::scalar::{MAX_COORD, STORAGE_ONE, WIDEN_FACTOR, WIDE_ONE};
use vstd::prelude::*;

verus! {

/// The exact rotation by the conjugate of `q`, in terms of `q`:
/// `(W^2 - 2 |q_xyz|^2) v + 2 (q_xyz . v) q_xyz - 2 w (q_xyz x v)`.
pub open spec fn inverse_form(v: RawVec3, q: RawQuat) -> RawVec3 {
    let al = wide_one_squared() - 2 * axis_norm2(q);
    let be = 2 * axis_dot(v, q);
    let ga = 2 * q.w;
    let u = exact_cross(q.axis(), v);
    RawVec3 {
        x: al * v.x + be * q.x - ga * u.x,
        y: al * v.y + be * q.y - ga * u.y,
        z: al * v.z + be * q.z - ga * u.z,
    }
}

/// Products with a factor of the opposite sign.
proof fn lemma_signs(a: int, y: int)
    by (nonlinear_arith)
    ensures
        (-a) * (-a) == a * a,
        (-a) * y == -(a * y),
{
}

/// `(-p) (-a) = p a` and `g (-u) = -(g u)`.
proof fn lemma_opposite(p: int, pp: int, a: int, g: int, u: int, uu: int)
    by (nonlinear_arith)
    requires
        pp == -p,
        uu == -u,
    ensures
        pp * (-a) == p * a,
        g * uu == -(g * u),
{
}

/// The exact rotation by the conjugate is [`inverse_form`].
pub proof fn lemma_inverse_form(v: RawVec3, q: RawQuat)
    ensures
        exact_rotation(v, q.conjugate()) == inverse_form(v, q),
{
    let qc = q.conjugate();
    lemma_rotation_form(v, qc);
    let (a, b, c) = (q.x, q.y, q.z);
    let (x, y, z) = (v.x, v.y, v.z);
    lemma_signs(a, a);
    lemma_signs(b, b);
    lemma_signs(c, c);
    lemma_signs(a, x);
    lemma_signs(b, y);
    lemma_signs(c, z);
    lemma_signs(b, z);
    lemma_signs(c, y);
    lemma_signs(c, x);
    lemma_signs(a, z);
    lemma_signs(a, y);
    lemma_signs(b, x);
    assert(axis_norm2(qc) == axis_norm2(q));
    assert(axis_dot(v, qc) == -axis_dot(v, q));
    let u = exact_cross(q.axis(), v);
    let uc = exact_cross(qc.axis(), v);
    assert(uc.x == -u.x && uc.y == -u.y && uc.z == -u.z);
    let be = 2 * axis_dot(v, q);
    let bc = 2 * axis_dot(v, qc);
    let ga = 2 * q.w;
    lemma_opposite(be, bc, a, ga, u.x, uc.x);
    lemma_opposite(be, bc, b, ga, u.y, uc.y);
    lemma_opposite(be, bc, c, ga, u.z, uc.z);
}

/// A factor `a` times a combination of three.
proof fn lemma_scale_combination(a: int, al: int, be: int, ga: int, x: int, q: int, u: int)
    ensures
        a * (al * x + be * q + ga * u) == al * (a * x) + be * (a * q) + ga * (a * u),
{
    lemma_dist3(a, al * x, be * q, ga * u);
    lemma_regroup3(a, al, x);
    lemma_regroup3(a, be, q);
    lemma_regroup3(a, ga, u);
}

/// `al p - al q + ga r - ga t = al (p - q) + ga (r - t)`.
proof fn lemma_collect(al: int, ga: int, p: int, q: int, r: int, t: int)
    by (nonlinear_arith)
    ensures
        al * p - al * q + ga * r - ga * t == al * (p - q) + ga * (r - t),
{
}

/// One component of the way there and back, over the scalars of the two
/// combinations: with `y = al x + be a + ga u` the component of the rotated
/// vector, `sy = al s + be m` its dot product with the quaternion's vector
/// part and `uy = al u + ga (s a - m x)` the component of its cross product,
/// the component that comes back is `o^2 x + 4 d (m x - s a)`.
proof fn lemma_back_component(
    o: int,
    m: int,
    s: int,
    w: int,
    x: int,
    a: int,
    u: int,
    y: int,
    sy: int,
    uy: int,
)
    requires
        y == (o - 2 * m) * x + (2 * s) * a + (2 * w) * u,
        sy == (o - 2 * m) * s + (2 * s) * m,
        uy == (o - 2 * m) * u + (2 * w) * (s * a - m * x),
    ensures
        (o - 2 * m) * y + (2 * sy) * a - (2 * w) * uy == (o * o) * x + 4 * ((w * w + m - o) * (m * x
            - s * a)),
{
    let sa = s * a;
    let mx = m * x;
    let wu = w * u;
    let ww = w * w;
    let al = o - 2 * m;
    lemma_dist3(al, al * x, (2 * s) * a, (2 * w) * u);
    assert(al * (al * x) == (o * o) * x - 4 * (o * mx) + 4 * (m * mx)) by (nonlinear_arith)
        requires
            al == o - 2 * m,
            mx == m * x,
    ;
    assert(al * ((2 * s) * a) == 2 * (o * sa) - 4 * (m * sa)) by (nonlinear_arith)
        requires
            al == o - 2 * m,
            sa == s * a,
    ;
    assert(al * ((2 * w) * u) == 2 * (o * wu) - 4 * (m * wu)) by (nonlinear_arith)
        requires
            al == o - 2 * m,
            wu == w * u,
    ;
    assert((2 * sy) * a == 2 * (o * sa)) by (nonlinear_arith)
        requires
            sy == (o - 2 * m) * s + (2 * s) * m,
            sa == s * a,
    ;
    assert((2 * w) * uy == 2 * (o * wu) - 4 * (m * wu) + 4 * (ww * sa) - 4 * (ww * mx))
        by (nonlinear_arith)
        requires
            uy == (o - 2 * m) * u + (2 * w) * (sa - mx),
            wu == w * u,
            ww == w * w,
    ;
    assert((ww + m - o) * (mx - sa) == ww * mx - ww * sa + m * mx - m * sa - o * mx + o * sa)
        by (nonlinear_arith);
}

/// There and back without rounding. The exact rotation by the conjugate of
/// the exact rotation of `v` is `W^4 v + 4 d (|q_xyz|^2 v - (q_xyz . v)
/// q_xyz)`, with `d` the unit defect: for an exact unit quaternion it is the
/// vector itself, times `W^4`.
pub proof fn lemma_exact_round_trip(v: RawVec3, q: RawQuat)
    ensures
        exact_rotation(exact_rotation(v, q), q.conjugate()) == (RawVec3 {
            x: (wide_one_squared() * wide_one_squared()) * v.x + 4 * (unit_defect(q) * (axis_norm2(
                q,
            ) * v.x - axis_dot(v, q) * q.x)),
            y: (wide_one_squared() * wide_one_squared()) * v.y + 4 * (unit_defect(q) * (axis_norm2(
                q,
            ) * v.y - axis_dot(v, q) * q.y)),
            z: (wide_one_squared() * wide_one_squared()) * v.z + 4 * (unit_defect(q) * (axis_norm2(
                q,
            ) * v.z - axis_dot(v, q) * q.z)),
        }),
{
    let o = wide_one_squared();
    let (a, b, c, w) = (q.x, q.y, q.z, q.w);
    let (x, y, z) = (v.x, v.y, v.z);
    let m = axis_norm2(q);
    let s = axis_dot(v, q);
    let al = o - 2 * m;
    let be = 2 * s;
    let ga = 2 * w;
    let u = exact_cross(q.axis(), v);
    let p = exact_rotation(v, q);
    lemma_rotation_form(v, q);
    lemma_inverse_form(p, q);
    // the dot product of the rotated vector with the vector part
    lemma_scale_combination(a, al, be, ga, x, a, u.x);
    lemma_scale_combination(b, al, be, ga, y, b, u.y);
    lemma_scale_combination(c, al, be, ga, z, c, u.z);
    lemma_dist3(al, a * x, b * y, c * z);
    lemma_dist3(be, a * a, b * b, c * c);
    lemma_dist3(ga, a * u.x, b * u.y, c * u.z);
    lemma_orthogonal(a, b, c, x, y, z);
    let qu = a * u.x + b * u.y + c * u.z;
    assert(ga * qu == 0) by (nonlinear_arith)
        requires
            qu == 0,
    ;
    let sy = axis_dot(p, q);
    assert(sy == al * s + be * m);
    // the cross product of the vector part with the rotated vector
    lemma_scale_combination(b, al, be, ga, z, c, u.z);
    lemma_scale_combination(c, al, be, ga, y, b, u.y);
    lemma_scale_combination(c, al, be, ga, x, a, u.x);
    lemma_scale_combination(a, al, be, ga, z, c, u.z);
    lemma_scale_combination(a, al, be, ga, y, b, u.y);
    lemma_scale_combination(b, al, be, ga, x, a, u.x);
    lemma_collect(al, ga, b * z, c * y, b * u.z, c * u.y);
    lemma_collect(al, ga, c * x, a * z, c * u.x, a * u.z);
    lemma_collect(al, ga, a * y, b * x, a * u.y, b * u.x);
    lemma_double_cross(a, b, c, 0, x, y, z);
    lemma_double_cross(b, c, a, 0, y, z, x);
    lemma_double_cross(c, a, b, 0, z, x, y);
    assert(b * y + c * z + a * x == s);
    assert(c * z + a * x + b * y == s);
    assert(b * b + c * c + a * a == m);
    assert(c * c + a * a + b * b == m);
    let uy = exact_cross(q.axis(), p);
    assert(b * u.z - c * u.y == s * a - m * x);
    assert(c * u.x - a * u.z == s * b - m * y);
    assert(a * u.y - b * u.x == s * c - m * z);
    assert(uy.x == al * u.x + ga * (s * a - m * x));
    assert(uy.y == al * u.y + ga * (s * b - m * y));
    assert(uy.z == al * u.z + ga * (s * c - m * z));
    lemma_back_component(o, m, s, w, x, a, u.x, p.x, sy, uy.x);
    lemma_back_component(o, m, s, w, y, b, u.y, p.y, sy, uy.y);
    lemma_back_component(o, m, s, w, z, c, u.z, p.z, sy, uy.z);
    assert(unit_defect(q) == w * w + m - o);
}


/// Where `c z = y + g`, `c (al z) = al y + al g`.
proof fn lemma_linear_term(al: int, c: int, z: int, y: int, g: int)
    by (nonlinear_arith)
    requires
        c * z == y + g,
    ensures
        c * (al * z) == al * y + al * g,
{
    assert(c * (al * z) == al * (c * z));
}

/// Where `c z = y + g`, `c ((2 z) a) = (2 y) a + (2 g) a`.
proof fn lemma_linear_term_twice(a: int, c: int, z: int, y: int, g: int)
    by (nonlinear_arith)
    requires
        c * z == y + g,
    ensures
        c * ((2 * z) * a) == (2 * y) * a + (2 * g) * a,
{
    assert(c * ((2 * z) * a) == (2 * a) * (c * z));
}

/// `c (p + q - r) = c p + c q - c r`.
proof fn lemma_dist_signed(c: int, p: int, q: int, r: int)
    by (nonlinear_arith)
    ensures
        c * (p + q - r) == c * p + c * q - c * r,
        c * (p - r) == c * p - c * r,
{
}

/// One component of [`inverse_form`] is linear: where `c` times the
/// components `z1`, `z2`, `z3` of one vector are the sums of those of two
/// others, the same holds of the component of the form.
proof fn lemma_inverse_component_linear(
    al: int,
    w: int,
    a: int,
    b: int,
    cq: int,
    c: int,
    z1: int,
    z2: int,
    z3: int,
    y1: int,
    y2: int,
    y3: int,
    g1: int,
    g2: int,
    g3: int,
)
    requires
        c * z1 == y1 + g1,
        c * z2 == y2 + g2,
        c * z3 == y3 + g3,
    ensures
        c * (al * z1 + (2 * (a * z1 + b * z2 + cq * z3)) * a - (2 * w) * (b * z3 - cq * z2)) == (al
            * y1 + (2 * (a * y1 + b * y2 + cq * y3)) * a - (2 * w) * (b * y3 - cq * y2)) + (al * g1
            + (2 * (a * g1 + b * g2 + cq * g3)) * a - (2 * w) * (b * g3 - cq * g2)),
{
    let sz = a * z1 + b * z2 + cq * z3;
    let sy = a * y1 + b * y2 + cq * y3;
    let sg = a * g1 + b * g2 + cq * g3;
    let uz = b * z3 - cq * z2;
    let uy = b * y3 - cq * y2;
    let ug = b * g3 - cq * g2;
    lemma_linear_term(al, c, z1, y1, g1);
    lemma_linear_term(a, c, z1, y1, g1);
    lemma_linear_term(b, c, z2, y2, g2);
    lemma_linear_term(cq, c, z3, y3, g3);
    lemma_dist3(c, a * z1, b * z2, cq * z3);
    assert(c * sz == sy + sg);
    lemma_linear_term_twice(a, c, sz, sy, sg);
    lemma_linear_term(b, c, z3, y3, g3);
    lemma_linear_term(cq, c, z2, y2, g2);
    lemma_dist_signed(c, b * z3, 0, cq * z2);
    assert(c * uz == uy + ug);
    lemma_linear_term(2 * w, c, uz, uy, ug);
    lemma_dist_signed(c, al * z1, (2 * sz) * a, (2 * w) * uz);
}

/// The exact rotation by the conjugate is linear: where `c z = y + g`,
/// component by component, `c` times the rotation of `z` is the sum of the
/// rotations of `y` and `g`.
pub proof fn lemma_inverse_linear(q: RawQuat, c: int, z: RawVec3, y: RawVec3, g: RawVec3)
    requires
        c * z.x == y.x + g.x,
        c * z.y == y.y + g.y,
        c * z.z == y.z + g.z,
    ensures
        c * exact_rotation(z, q.conjugate()).x == exact_rotation(y, q.conjugate()).x
            + exact_rotation(g, q.conjugate()).x,
        c * exact_rotation(z, q.conjugate()).y == exact_rotation(y, q.conjugate()).y
            + exact_rotation(g, q.conjugate()).y,
        c * exact_rotation(z, q.conjugate()).z == exact_rotation(y, q.conjugate()).z
            + exact_rotation(g, q.conjugate()).z,
{
    lemma_inverse_form(z, q);
    lemma_inverse_form(y, q);
    lemma_inverse_form(g, q);
    let al = wide_one_squared() - 2 * axis_norm2(q);
    lemma_inverse_component_linear(
        al, q.w, q.x, q.y, q.z, c, z.x, z.y, z.z, y.x, y.y, y.z, g.x, g.y, g.z,
    );
    lemma_inverse_component_linear(
        al, q.w, q.y, q.z, q.x, c, z.y, z.z, z.x, y.y, y.z, y.x, g.y, g.z, g.x,
    );
    lemma_inverse_component_linear(
        al, q.w, q.z, q.x, q.y, c, z.z, z.x, z.y, y.z, y.x, y.y, g.z, g.x, g.y,
    );
}


/// True when the coordinate `back` lies near the coordinate `was`: by the
/// roundings less than three raw steps below it and less than two above,
/// and by `9 |d| m / 2^124` more for a quaternion of unit defect `d` and
/// coordinates of raw magnitude at most `m`.
pub open spec fn comes_back(was: int, back: int, m: int, d: int) -> bool {
    -3 * wide_one_squared() - 9 * (magnitude(d) * m) < wide_one_squared() * (back - was) < 2
        * wide_one_squared() + 9 * (magnitude(d) * m)
}

/// One coordinate of the way there and back. `r2` is the wide coordinate
/// that the second rotation computes and `back` what is left of it in the
/// storage scalar; `pg` and `e2` are what the roundings of the first and of
/// the second rotation add to it, and `t` what the unit defect `d` of the
/// quaternion is multiplied by.
proof fn lemma_comes_back(
    o: int,
    f: int,
    was: int,
    back: int,
    r2: int,
    pg: int,
    e2: int,
    d: int,
    t: int,
    c1: int,
    m: int,
)
    requires
        o == 0x1000_0000_0000_0000_0000_0000_0000_0000,
        f == 0x4000_0000_0000,
        c1 == 0x6000_0000_0000_0000,
        f * back <= r2 < f * back + f,
        o * (o * r2) == (o * o) * (was * f) + 4 * (d * t) + pg + o * e2,
        -7 * (o * (o * (f + 8))) <= 4 * pg <= 7 * (o * (o * (f + 8))),
        -8 * o <= e2 <= 8 * o,
        -(c1 * (c1 * (m * f))) <= t <= c1 * (c1 * (m * f)),
    ensures
        comes_back(was, back, m, d),
{
    let da = magnitude(d);
    let tb = c1 * (c1 * (m * f));
    lemma_product_bound(d, t, da, tb);
    assert(4 * (da * tb) == 9 * ((o * f) * (da * m))) by (nonlinear_arith)
        requires
            tb == c1 * (c1 * (m * f)),
            4 * (c1 * c1) == 9 * o,
    ;
    let dm = da * m;
    let x = back - was;
    assert((o * o) * (f * back) <= o * (o * r2) < (o * o) * (f * back) + (o * o) * f)
        by (nonlinear_arith)
        requires
            f * back <= r2 < f * back + f,
            0 < o,
    ;
    assert((o * o) * (f * back) - (o * o) * (was * f) == (o * f) * (o * x)) by (nonlinear_arith)
        requires
            x == back - was,
    ;
    assert((o * f) * (o * x) < (o * f) * (2 * o + 9 * dm)) by (nonlinear_arith)
        requires
            (o * f) * (o * x) <= 9 * ((o * f) * dm) + pg + o * e2,
            4 * pg <= 7 * (o * (o * (f + 8))),
            e2 <= 8 * o,
            o == 0x1000_0000_0000_0000_0000_0000_0000_0000,
            f == 0x4000_0000_0000,
    ;
    assert((o * f) * (o * x) > (o * f) * (-3 * o - 9 * dm)) by (nonlinear_arith)
        requires
            (o * f) * (o * x) > -9 * ((o * f) * dm) + pg + o * e2 - (o * o) * f,
            -7 * (o * (o * (f + 8))) <= 4 * pg,
            -8 * o <= e2,
            o == 0x1000_0000_0000_0000_0000_0000_0000_0000,
            f == 0x4000_0000_0000,
    ;
    assert(-3 * o - 9 * dm < o * x < 2 * o + 9 * dm) by (nonlinear_arith)
        requires
            (o * f) * (o * x) < (o * f) * (2 * o + 9 * dm),
            (o * f) * (o * x) > (o * f) * (-3 * o - 9 * dm),
            0 < o * f,
    ;
}

/// Round trip. A vector of storage scalars that is rotated by a unit
/// quaternion and then by its inverse comes back to where it was: each
/// coordinate at most two raw steps below and one above, and by
/// `9 |d| m / 2^124` steps more where the quaternion has the unit defect
/// `d` and the coordinates a raw magnitude of at most `m`. Both rotations
/// are representable where `7 m + 4` does not exceed four times
/// [`MAX_COORD`](crate::math::scalar::MAX_COORD).
pub proof fn lemma_round_trip(v: RawVec3, q: RawQuat, m: int)
    requires
        q.is_unit(),
        v.within(-m, m),
    ensures
        ({
            let there = rotate_model(v, q, STORAGE_ONE as int);
            let back = rotate_model(there, q.conjugate(), STORAGE_ONE as int);
            &&& comes_back(v.x, back.x, m, unit_defect(q))
            &&& comes_back(v.y, back.y, m, unit_defect(q))
            &&& comes_back(v.z, back.z, m, unit_defect(q))
            &&& 7 * m + 4 <= 4 * MAX_COORD ==> rotate_fits(
                v,
                q,
                STORAGE_ONE as int,
                i64::MIN as int,
                i64::MAX as int,
            ) && rotate_fits(
                there,
                q.conjugate(),
                STORAGE_ONE as int,
                i64::MIN as int,
                i64::MAX as int,
            )
        }),
{
    let o = wide_one_squared();
    let f = WIDEN_FACTOR as int;
    let one = WIDE_ONE as int;
    let c1 = 3 * (one / 2);
    let qc = q.conjugate();
    lemma_widen_factor_storage();
    lemma_conjugate_is_unit(q);
    let there = rotate_model(v, q, STORAGE_ONE as int);
    let back = rotate_model(there, qc, STORAGE_ONE as int);
    if 7 * m + 4 <= 4 * MAX_COORD {
        lemma_rotate_in_range(v, q, m);
        lemma_rotate_in_range(there, qc, MAX_COORD as int);
    }
    // there
    let wv = v.widened(f);
    let r1 = rotate_wide(wv, q);
    assert(there == r1.narrowed(f));
    let p = exact_rotation(wv, q);
    lemma_rounding_error(wv, q);
    lemma_narrowing_error(o, f, r1.x, there.x, p.x);
    lemma_narrowing_error(o, f, r1.y, there.y, p.y);
    lemma_narrowing_error(o, f, r1.z, there.z, p.z);
    // and back
    let w1 = there.widened(f);
    let r2 = rotate_wide(w1, qc);
    assert(back == r2.narrowed(f));
    let g = RawVec3 { x: o * w1.x - p.x, y: o * w1.y - p.y, z: o * w1.z - p.z };
    lemma_regroup3(o, there.x, f);
    lemma_regroup3(o, there.y, f);
    lemma_regroup3(o, there.z, f);
    let gb = o * (f + 8);
    assert(g.within(-gb, gb));
    lemma_inverse_linear(q, o, w1, p, g);
    lemma_exact_round_trip(wv, q);
    lemma_exact_rotation_bound(g, qc, gb);
    lemma_rounding_error(w1, qc);
    let pg = exact_rotation(g, qc);
    let pc = exact_rotation(w1, qc);
    let e2 = rounding_error(w1, qc);
    // what the unit defect is multiplied by
    let u = exact_cross(q.axis(), wv);
    let k = m * f;
    lemma_unit_pair(q.y, q.z, q.x, q.w);
    lemma_unit_pair(q.z, q.x, q.y, q.w);
    lemma_unit_pair(q.x, q.y, q.z, q.w);
    lemma_three_products_bound(q.y, wv.z, q.z, wv.y, 0, 0, c1, k);
    lemma_three_products_bound(q.z, wv.x, q.x, wv.z, 0, 0, c1, k);
    lemma_three_products_bound(q.x, wv.y, q.y, wv.x, 0, 0, c1, k);
    let ub = c1 * k;
    lemma_three_products_bound(q.y, u.z, q.z, u.y, 0, 0, c1, ub);
    lemma_three_products_bound(q.z, u.x, q.x, u.z, 0, 0, c1, ub);
    lemma_three_products_bound(q.x, u.y, q.y, u.x, 0, 0, c1, ub);
    let (a, b, c) = (q.x, q.y, q.z);
    let (x, y, z) = (wv.x, wv.y, wv.z);
    let s = axis_dot(wv, q);
    let mq = axis_norm2(q);
    lemma_double_cross(a, b, c, 0, x, y, z);
    lemma_double_cross(b, c, a, 0, y, z, x);
    lemma_double_cross(c, a, b, 0, z, x, y);
    assert(b * y + c * z + a * x == s);
    assert(c * z + a * x + b * y == s);
    assert(b * b + c * c + a * a == mq);
    assert(c * c + a * a + b * b == mq);
    let tx = mq * x - s * a;
    let ty = mq * y - s * b;
    let tz = mq * z - s * c;
    assert(tx == -(b * u.z - c * u.y));
    assert(ty == -(c * u.x - a * u.z));
    assert(tz == -(a * u.y - b * u.x));
    let d = unit_defect(q);
    assert(o * (o * r2.x) == o * pc.x + o * e2.x) by (nonlinear_arith)
        requires
            e2.x == o * r2.x - pc.x,
    ;
    assert(o * (o * r2.y) == o * pc.y + o * e2.y) by (nonlinear_arith)
        requires
            e2.y == o * r2.y - pc.y,
    ;
    assert(o * (o * r2.z) == o * pc.z + o * e2.z) by (nonlinear_arith)
        requires
            e2.z == o * r2.z - pc.z,
    ;
    lemma_comes_back(o, f, v.x, back.x, r2.x, pg.x, e2.x, d, tx, c1, m);
    lemma_comes_back(o, f, v.y, back.y, r2.y, pg.y, e2.y, d, ty, c1, m);
    lemma_comes_back(o, f, v.z, back.z, r2.z, pg.z, e2.z, d, tz, c1, m);
}

} // verus!
