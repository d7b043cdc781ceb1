//! Identities of integer polynomials that the laws of rotation rest on.
//! Each is proved by expanding products of sums and regrouping products of
//! products, one small step at a time.

use vstd::prelude::*;

verus! {

/// `k (x + y + z) = k x + k y + k z`.
pub proof fn lemma_dist3(k: int, x: int, y: int, z: int)
    by (nonlinear_arith)
    ensures
        k * (x + y + z) == k * x + k * y + k * z,
{
}

/// The square of a difference.
pub proof fn lemma_square_of_difference(p: int, q: int)
    by (nonlinear_arith)
    ensures
        (p - q) * (p - q) == p * p - 2 * (p * q) + q * q,
{
}

/// The square of a sum of three.
pub proof fn lemma_square_of_sum3(p: int, q: int, r: int)
    by (nonlinear_arith)
    ensures
        (p + q + r) * (p + q + r) == p * p + q * q + r * r + 2 * (p * q) + 2 * (p * r) + 2 * (q
            * r),
{
}

/// The product of two sums of three.
pub proof fn lemma_product_of_sums3(a1: int, a2: int, a3: int, b1: int, b2: int, b3: int)
    by (nonlinear_arith)
    ensures
        (a1 + a2 + a3) * (b1 + b2 + b3) == a1 * b1 + a1 * b2 + a1 * b3 + a2 * b1 + a2 * b2 + a2
            * b3 + a3 * b1 + a3 * b2 + a3 * b3,
{
}

/// Products of two products, regrouped.
pub proof fn lemma_regroup(a: int, x: int, b: int, y: int)
    by (nonlinear_arith)
    ensures
        (a * x) * (a * x) == (a * a) * (x * x),
        (a * x) * (b * y) == (a * b) * (x * y),
        (a * x) * (b * y) == (a * y) * (b * x),
{
}

/// Products of three factors, regrouped.
pub proof fn lemma_regroup3(a: int, b: int, c: int)
    by (nonlinear_arith)
    ensures
        a * (b * c) == (a * b) * c,
        a * (b * c) == (a * c) * b,
        a * (b * c) == b * (a * c),
        a * (b * c) == c * (a * b),
{
}

/// The squared norm of a cross product:
/// `|q x v|^2 = |q|^2 |v|^2 - (q . v)^2`.
pub proof fn lemma_lagrange(a: int, b: int, c: int, x: int, y: int, z: int)
    ensures
        (b * z - c * y) * (b * z - c * y) + (c * x - a * z) * (c * x - a * z) + (a * y - b * x) * (a
            * y - b * x) == (a * a + b * b + c * c) * (x * x + y * y + z * z) - (a * x + b * y + c
            * z) * (a * x + b * y + c * z),
{
    lemma_square_of_difference(b * z, c * y);
    lemma_square_of_difference(c * x, a * z);
    lemma_square_of_difference(a * y, b * x);
    lemma_product_of_sums3(a * a, b * b, c * c, x * x, y * y, z * z);
    lemma_square_of_sum3(a * x, b * y, c * z);
    lemma_regroup(b, z, c, y);
    lemma_regroup(c, y, b, z);
    lemma_regroup(c, x, a, z);
    lemma_regroup(a, z, c, x);
    lemma_regroup(a, y, b, x);
    lemma_regroup(b, x, a, y);
    lemma_regroup(a, x, b, y);
    lemma_regroup(a, x, c, z);
    lemma_regroup(b, y, c, z);
    lemma_regroup(a, x, a, x);
    lemma_regroup(b, y, b, y);
    lemma_regroup(c, z, c, z);
}

/// A cross product is orthogonal to both of its factors.
pub proof fn lemma_orthogonal(a: int, b: int, c: int, x: int, y: int, z: int)
    by (nonlinear_arith)
    ensures
        x * (b * z - c * y) + y * (c * x - a * z) + z * (a * y - b * x) == 0,
        a * (b * z - c * y) + b * (c * x - a * z) + c * (a * y - b * x) == 0,
{
}

/// Two sums of three terms times a factor each, and a difference times a
/// third, expanded.
proof fn lemma_expand_double_cross(
    b: int,
    c: int,
    h1: int,
    h2: int,
    h3: int,
    h4: int,
    h5: int,
    h6: int,
)
    by (nonlinear_arith)
    ensures
        b * ((h1 - h2) + h3) - c * ((h4 - h5) + h6) == b * h1 - b * h2 + b * h3 - c * h4 + c * h5
            - c * h6,
{
}

/// `(q1 + q2 + q3) a - (r1 + r2 + r3) x + w (t1 - t2)`, expanded.
proof fn lemma_expand_triple(
    a: int,
    x: int,
    w: int,
    q1: int,
    q2: int,
    q3: int,
    r1: int,
    r2: int,
    r3: int,
    t1: int,
    t2: int,
)
    by (nonlinear_arith)
    ensures
        (q1 + q2 + q3) * a - (r1 + r2 + r3) * x + w * (t1 - t2) == q1 * a + q2 * a + q3 * a - r1
            * x - r2 * x - r3 * x + w * t1 - w * t2,
{
}

/// One component of `q x (q x v + w v) = (q . v) q - |q|^2 v + w (q x v)`.
pub proof fn lemma_double_cross(a: int, b: int, c: int, w: int, x: int, y: int, z: int)
    ensures
        b * ((a * y - b * x) + z * w) - c * ((c * x - a * z) + y * w) == (a * x + b * y + c * z)
            * a - (a * a + b * b + c * c) * x + w * (b * z - c * y),
{
    lemma_expand_double_cross(b, c, a * y, b * x, z * w, c * x, a * z, y * w);
    lemma_expand_triple(a, x, w, a * x, b * y, c * z, a * a, b * b, c * c, b * z, c * y);
    lemma_regroup3(b, a, y);
    lemma_regroup3(b, y, a);
    lemma_regroup3(b, b, x);
    lemma_regroup3(b, z, w);
    lemma_regroup3(w, b, z);
    lemma_regroup3(c, c, x);
    lemma_regroup3(c, a, z);
    lemma_regroup3(c, z, a);
    lemma_regroup3(c, y, w);
    lemma_regroup3(w, c, y);
    lemma_regroup3(a, x, a);
    lemma_regroup3(a, a, x);
}

/// `o x + 2 (s a - m x + w u) = (o - 2 m) x + (2 s) a + (2 w) u`.
pub proof fn lemma_as_combination(o: int, m: int, s: int, w: int, x: int, a: int, u: int)
    by (nonlinear_arith)
    ensures
        o * x + 2 * (s * a - m * x + w * u) == (o - 2 * m) * x + (2 * s) * a + (2 * w) * u,
{
}

/// The six products of the square of `al x + be a + ga u`, regrouped.
proof fn lemma_regroup_combination(al: int, be: int, ga: int, x: int, a: int, u: int)
    by (nonlinear_arith)
    ensures
        (al * x) * (al * x) == (al * al) * (x * x),
        (be * a) * (be * a) == (be * be) * (a * a),
        (ga * u) * (ga * u) == (ga * ga) * (u * u),
        (al * x) * (be * a) == (al * be) * (a * x),
        (al * x) * (ga * u) == (al * ga) * (x * u),
        (be * a) * (ga * u) == (be * ga) * (a * u),
{
}

/// The square of one component of a combination of three vectors.
proof fn lemma_combination_square(al: int, be: int, ga: int, x: int, a: int, u: int)
    ensures
        (al * x + be * a + ga * u) * (al * x + be * a + ga * u) == (al * al) * (x * x) + (be * be)
            * (a * a) + (ga * ga) * (u * u) + 2 * ((al * be) * (a * x)) + 2 * ((al * ga) * (x * u))
            + 2 * ((be * ga) * (a * u)),
{
    lemma_square_of_sum3(al * x, be * a, ga * u);
    lemma_regroup_combination(al, be, ga, x, a, u);
}

/// The squared norm of the combination `al v + be q + ga u` of three
/// vectors, in their squared norms and dot products.
pub proof fn lemma_combination_norm(
    al: int,
    be: int,
    ga: int,
    x: int,
    y: int,
    z: int,
    a: int,
    b: int,
    c: int,
    ux: int,
    uy: int,
    uz: int,
)
    ensures
        (al * x + be * a + ga * ux) * (al * x + be * a + ga * ux) + (al * y + be * b + ga * uy) * (al
            * y + be * b + ga * uy) + (al * z + be * c + ga * uz) * (al * z + be * c + ga * uz) == (al
            * al) * (x * x + y * y + z * z) + (be * be) * (a * a + b * b + c * c) + (ga * ga) * (ux
            * ux + uy * uy + uz * uz) + 2 * ((al * be) * (a * x + b * y + c * z)) + 2 * ((al * ga)
            * (x * ux + y * uy + z * uz)) + 2 * ((be * ga) * (a * ux + b * uy + c * uz)),
{
    lemma_combination_square(al, be, ga, x, a, ux);
    lemma_combination_square(al, be, ga, y, b, uy);
    lemma_combination_square(al, be, ga, z, c, uz);
    lemma_dist3(al * al, x * x, y * y, z * z);
    lemma_dist3(be * be, a * a, b * b, c * c);
    lemma_dist3(ga * ga, ux * ux, uy * uy, uz * uz);
    lemma_dist3(al * be, a * x, b * y, c * z);
    lemma_dist3(al * ga, x * ux, y * uy, z * uz);
    lemma_dist3(be * ga, a * ux, b * uy, c * uz);
}

/// What is left of the squared norm of the combination when `u` is
/// orthogonal to `v` and `q` and `|u|^2 = |q|^2 |v|^2 - (q . v)^2`:
/// `o^2 |v|^2 + 4 (w^2 + |q|^2 - o) |u|^2`.
pub proof fn lemma_rotation_scalars(o: int, m: int, s: int, w: int, n: int, u: int)
    requires
        u == m * n - s * s,
    ensures
        ((o - 2 * m) * (o - 2 * m)) * n + ((2 * s) * (2 * s)) * m + ((2 * w) * (2 * w)) * u + 2 * (((o
            - 2 * m) * (2 * s)) * s) == (o * o) * n + 4 * ((w * w + m - o) * u),
{
    let mn = m * n;
    let ss = s * s;
    assert(((o - 2 * m) * (o - 2 * m)) * n == (o * o) * n - 4 * (o * mn) + 4 * (m * mn))
        by (nonlinear_arith)
        requires
            mn == m * n,
    ;
    assert(((2 * s) * (2 * s)) * m == 4 * (m * ss)) by (nonlinear_arith)
        requires
            ss == s * s,
    ;
    assert(((2 * w) * (2 * w)) * u == 4 * ((w * w) * u)) by (nonlinear_arith);
    assert(((o - 2 * m) * (2 * s)) * s == 2 * (o * ss) - 4 * (m * ss)) by (nonlinear_arith)
        requires
            ss == s * s,
    ;
    assert((w * w + m - o) * u == (w * w) * u + m * mn - m * ss - o * mn + o * ss)
        by (nonlinear_arith)
        requires
            u == mn - ss,
    ;
}

} // verus!
