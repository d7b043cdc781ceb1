use bevy::math::DQuat;
use fixed::traits::ToFixed;
use fixed::types::extra::U62;
use fixed::types::I48F16;
use fixed::FixedI128;
use fixframe::math::orientation::Orientation;
use fixframe::math::scalar::{FixOrigin, FixWide};
use fixframe::math::vector::{FixVec3, FixVec3Wide, TypeVec3};
use std::f64::consts::PI;

fn fx<T: ToFixed>(x: T) -> FixOrigin {
    FixOrigin::from_bits(I48F16::from_num(x).to_bits())
}

fn wide<T: ToFixed>(x: T) -> FixWide {
    FixWide::from_bits(FixedI128::<U62>::from_num(x).to_bits())
}

fn orient(q: DQuat) -> Orientation {
    Orientation::new(wide(q.w), wide(q.x), wide(q.y), wide(q.z))
}

fn raw(v: FixVec3) -> (i64, i64, i64) {
    (v.x.bits, v.y.bits, v.z.bits)
}

/// Exact sum of the squares of the raw components.
fn norm2(v: FixVec3) -> i128 {
    let (x, y, z) = (v.x.bits as i128, v.y.bits as i128, v.z.bits as i128);
    x * x + y * y + z * z
}

//	Construction
#[test]
fn test_new_generic() {
    let v_i64 = FixVec3::new(1, 2, 3);
    let v_f64 = FixVec3::new(fx(1.), fx(2.), fx(3.));
    let v_mix = FixVec3::new(1, fx(2.), fx(3f32));

    assert_eq!(v_i64, v_f64);
    assert_eq!(v_f64, v_mix);
    assert_eq!(v_i64.x, fx(1));
}

//	Arithmetic
#[test]
fn test_rot90() {
    let eps_fixed = FixOrigin::delta();
    let vec = FixVec3::new(fx(1), fx(0), fx(0));
    let rot = DQuat::from_rotation_z(PI / 2.0);
    let res = vec.rotate(orient(rot));

    //	Expected: (0, 1, 0)
    assert!(res.x.abs() < eps_fixed, "X should be 0, got {:?}", res.x);
    assert!((res.y - fx(1)).abs() <= eps_fixed, "Y should be 1, got {:?}", res.y);
}

//	Stability
#[test]
fn test_far_stable() {
    let eps_fp_far = FixOrigin::one();
    let far_dist = 1.5e13;

    let far = FixVec3::new(fx(far_dist), fx(0), fx(0));
    let rot = DQuat::from_rotation_z(PI / 2.0);
    let res = far.rotate(orient(rot));

    //	Check: magnitude preserved?
    let expect_2 = norm2(far);
    let length_2 = norm2(res);
    let diff = (length_2 - expect_2).abs();
    assert!((diff as f64) < length_tolerance(orient(rot), far.x.bits));
    assert!(diff < expect_2 >> 50);

    //	Check: correctness
    assert!(res.x.abs() < eps_fp_far);
    assert!(res.y - fx(far_dist) < eps_fp_far)
}

#[test]
fn test_far_precise() {
    let eps_fixed = FixOrigin::delta();
    let q = DQuat::from_rotation_z(0.12345);
    let q_ = q.inverse();

    let start = FixVec3::new(fx(1), fx(0), fx(0));
    let rotated = start.rotate(orient(q));
    let recovered = rotated.rotate(orient(q_));

    let err = (recovered - start).mag2();
    assert!(err < eps_fixed);
}

#[test]
fn rot90_exact_raw_values() {
    let res = FixVec3::new(fx(1), fx(0), fx(0)).rotate(orient(DQuat::from_rotation_z(PI / 2.0)));
    assert_eq!(raw(res), (0, 65535, 0));
}

#[test]
fn round_trip_stays_within_one_step_per_component() {
    let q = orient(DQuat::from_rotation_z(0.12345));
    let start = FixVec3::new(fx(1), fx(0), fx(0));
    let recovered = start.rotate(q).rotate(q.inverse());
    let d = recovered - start;
    assert!(d.x.abs() <= FixOrigin::delta());
    assert!(d.y.abs() <= FixOrigin::delta());
    assert!(d.z.abs() <= FixOrigin::delta());
}

#[test]
fn inverse_matches_the_floating_point_inverse() {
    let q = DQuat::from_rotation_z(0.12345);
    assert_eq!(orient(q).inverse(), orient(q.inverse()));
    let p = DQuat::from_xyzw(0.1, -0.2, 0.3, 0.9).normalize();
    assert_eq!(orient(p).inverse(), orient(p.inverse()));
}

#[test]
fn rotate_zero_vector_is_zero() {
    let q = orient(DQuat::from_xyzw(0.1, -0.2, 0.3, 0.9).normalize());
    assert_eq!(FixVec3::zero().rotate(q), FixVec3::zero());
    assert_eq!(FixVec3Wide::zero().rotate(q), FixVec3Wide::zero());
}

#[test]
fn rotate_by_identity_is_exact() {
    let v = FixVec3::new(fx(1.5e13), fx(-2.25), FixOrigin::from_bits(-1));
    assert_eq!(v.rotate(Orientation::identity()), v);
    let w = FixVec3Wide::new(wide(3), FixWide::from_bits(-7), wide(-0.5));
    assert_eq!(w.rotate(Orientation::identity()), w);
}

#[test]
fn rotate_half_turn_about_z_is_exact() {
    let q = Orientation::new(wide(0), wide(0), wide(0), wide(1));
    let v = FixVec3::new(fx(3), fx(-4.5), fx(7));
    assert_eq!(v.rotate(q), FixVec3::new(fx(-3), fx(4.5), fx(7)));
}

#[test]
fn rotate_wide_keeps_the_wide_result() {
    let q = orient(DQuat::from_rotation_z(PI / 2.0));
    let v = FixVec3::new(fx(1), fx(0), fx(0));
    let w = v.widen().rotate(q);
    assert_eq!(w.narrow(), v.rotate(q));
    assert!(w.y < wide(1) && w.y > wide(0.9999999999));
    assert_eq!(w.z, wide(0));
}

#[test]
fn rotate_general_axis_matches_floating_point() {
    let q = DQuat::from_xyzw(0.1, -0.2, 0.3, 0.9).normalize();
    let v = bevy::math::DVec3::new(12.5, -3.25, 100.0);
    let want = q * v;
    let got = FixVec3::new(fx(v.x), fx(v.y), fx(v.z)).rotate(orient(q));
    let step = 1.0 / 65536.0;
    assert!((I48F16::from_bits(got.x.bits).to_num::<f64>() - want.x).abs() <= step);
    assert!((I48F16::from_bits(got.y.bits).to_num::<f64>() - want.y).abs() <= step);
    assert!((I48F16::from_bits(got.z.bits).to_num::<f64>() - want.z).abs() <= step);
}

#[test]
fn length_is_kept_at_small_magnitude() {
    let q = orient(DQuat::from_xyzw(0.1, -0.2, 0.3, 0.9).normalize());
    let v = FixVec3::new(fx(3), fx(4), fx(12));
    let r = v.rotate(q);
    let diff = (norm2(r) - norm2(v)).abs();
    //	each component is cut by less than one step: 2 * |v| * sqrt(3) steps
    assert!(diff <= 2 * 13 * 65536 * 2);
    assert!((r.mag2() - v.mag2()).abs() <= fx(0.001));
}

#[test]
fn vector_sum_difference_negation() {
    let a = FixVec3::new(fx(1), fx(2.5), fx(-3));
    let b = FixVec3::new(fx(0.5), fx(-2), fx(4));
    assert_eq!(a + b, FixVec3::new(fx(1.5), fx(0.5), fx(1)));
    assert_eq!(a - b, FixVec3::new(fx(0.5), fx(4.5), fx(-7)));
    assert_eq!(-a, FixVec3::new(fx(-1), fx(-2.5), fx(3)));
    let w = FixVec3Wide::new(wide(1), wide(2.5), wide(-3));
    assert_eq!(w + w, FixVec3Wide::new(wide(2), wide(5), wide(-6)));
    assert_eq!(w - w, FixVec3Wide::zero());
    assert_eq!(-w, FixVec3Wide::new(wide(-1), wide(-2.5), wide(3)));
}

#[test]
fn vector_times_and_over_scalar() {
    let a = FixVec3::new(fx(1), fx(2.5), fx(-3));
    assert_eq!(a * fx(2), FixVec3::new(fx(2), fx(5), fx(-6)));
    assert_eq!(a / fx(2), FixVec3::new(fx(0.5), fx(1.25), fx(-1.5)));
    let w = FixVec3Wide::new(wide(1), wide(2.5), wide(-3));
    assert_eq!(w * wide(-2), FixVec3Wide::new(wide(-2), wide(-5), wide(6)));
    assert_eq!(w / wide(4), FixVec3Wide::new(wide(0.25), wide(0.625), wide(-0.75)));
}

#[test]
fn dot_cross_mag2() {
    let a = FixVec3::new(fx(1), fx(2), fx(3));
    let b = FixVec3::new(fx(-4), fx(5), fx(0.5));
    assert_eq!(a.dot(b), fx(7.5));
    assert_eq!(a.cross(b), FixVec3::new(fx(-14), fx(-12.5), fx(13)));
    assert_eq!(a.mag2(), fx(14));
    assert_eq!(TypeVec3::dot(a, b), fx(7.5));
    assert_eq!(TypeVec3::cross(a, b), a.cross(b));
    let aw = a.widen();
    let bw = b.widen();
    assert_eq!(aw.dot(bw), wide(7.5));
    assert_eq!(aw.cross(bw), FixVec3Wide::new(wide(-14), wide(-12.5), wide(13)));
    assert_eq!(aw.mag2(), wide(14));
}

#[test]
fn dot_rounds_each_product_down() {
    let tiny = FixVec3::new(FixOrigin::from_bits(1), FixOrigin::from_bits(-1), fx(0));
    let one = FixVec3::new(FixOrigin::from_bits(1), FixOrigin::from_bits(1), fx(0));
    //	1 * 1 / 2^16 rounds down to 0, -1 * 1 / 2^16 rounds down to -1
    assert_eq!(tiny.dot(one), FixOrigin::from_bits(-1));
}

#[test]
fn trait_constructors_and_accessors() {
    let v = <FixVec3 as TypeVec3>::new(fx(1), fx(2), fx(3));
    assert_eq!(v, FixVec3::new(fx(1), fx(2), fx(3)));
    assert_eq!((TypeVec3::x(&v), TypeVec3::y(&v), TypeVec3::z(&v)), (fx(1), fx(2), fx(3)));
    assert_eq!(<FixVec3 as TypeVec3>::zero(), FixVec3::default());
    let w = <FixVec3Wide as TypeVec3>::new(wide(1), wide(2), wide(3));
    assert_eq!((TypeVec3::x(&w), TypeVec3::y(&w), TypeVec3::z(&w)), (wide(1), wide(2), wide(3)));
    assert_eq!(<FixVec3Wide as TypeVec3>::zero(), FixVec3Wide::default());
}

#[test]
fn conversion_between_kinds() {
    let v = FixVec3::new(fx(1.5e13), fx(-0.5), FixOrigin::from_bits(1));
    let w: FixVec3Wide = v.to();
    assert_eq!(w, FixVec3Wide::new(wide(1.5e13), wide(-0.5), FixWide::from_bits(1 << 46)));
    assert_eq!(w, v.widen());
    let back: FixVec3 = w.to();
    assert_eq!(back, v);
    let same: FixVec3 = v.to();
    assert_eq!(same, v);
    let same_wide: FixVec3Wide = w.to();
    assert_eq!(same_wide, w);
}

#[test]
fn narrowing_cuts_towards_minus_infinity() {
    let w = FixVec3Wide::new(
        FixWide::from_bits((1 << 46) + 5),
        FixWide::from_bits(-1),
        FixWide::from_bits((1 << 46) - 1),
    );
    assert!(w.x.can_narrow());
    let v: FixVec3 = w.to();
    assert_eq!(raw(v), (1, -1, 0));
    assert_eq!(v, w.narrow());
    let again: FixVec3Wide = v.to();
    assert_eq!(again.x.bits, 1 << 46);
    assert_eq!(again.y.bits, -(1 << 46));
    assert_eq!(again.z.bits, 0);
}

#[test]
fn range_of_coordinates() {
    assert!(FixVec3::new(fx(1.5e13), fx(-1.5e13), fx(0)).is_in_range());
    assert!(FixVec3::new(fx(7.0e13), fx(-7.0e13), fx(0)).is_in_range());
    assert!(FixVec3::new(FixOrigin::from_bits(1 << 62), fx(0), fx(0)).is_in_range());
    assert!(FixVec3::new(fx(0), FixOrigin::from_bits(-(1 << 62)), fx(0)).is_in_range());
    assert!(!FixVec3::new(FixOrigin::from_bits((1 << 62) + 1), fx(0), fx(0)).is_in_range());
    assert!(!FixVec3::new(fx(0), fx(0), FixOrigin::from_bits(-(1 << 62) - 1)).is_in_range());
    assert!(!FixVec3::new(fx(0), fx(0), fx(-1.0e14)).is_in_range());
}

#[test]
fn vector_compound_assignment() {
    let mut a = FixVec3::new(fx(1), fx(2.5), fx(-3));
    a += FixVec3::new(fx(0.5), fx(-2), fx(4));
    assert_eq!(a, FixVec3::new(fx(1.5), fx(0.5), fx(1)));
    a -= FixVec3::new(fx(1), fx(1), fx(1));
    assert_eq!(a, FixVec3::new(fx(0.5), fx(-0.5), fx(0)));
    a *= fx(-4);
    assert_eq!(a, FixVec3::new(fx(-2), fx(2), fx(0)));
    a /= fx(8);
    assert_eq!(a, FixVec3::new(fx(-0.25), fx(0.25), fx(0)));
    let mut w = FixVec3Wide::new(wide(1), wide(2.5), wide(-3));
    w += FixVec3Wide::new(wide(1), wide(1), wide(1));
    w -= FixVec3Wide::new(wide(0.5), wide(0.5), wide(0.5));
    w *= wide(2);
    w /= wide(4);
    assert_eq!(w, FixVec3Wide::new(wide(0.75), wide(1.5), wide(-1.25)));
}

#[test]
fn checked_difference() {
    let a = FixVec3::new(fx(1.0e14), fx(0), fx(-1.0e14));
    let b = FixVec3::new(fx(-1.0e14), fx(0), fx(-1.0e14));
    assert_eq!(a.checked_sub(a), Some(FixVec3::zero()));
    assert_eq!(a.checked_sub(b), None);
    assert_eq!(b.checked_sub(a), None);
    let least = FixOrigin::from_bits(i64::MIN);
    let most = FixOrigin::from_bits(i64::MAX);
    assert_eq!(FixOrigin::from_bits(-1).checked_sub(most), Some(least));
    assert_eq!(FixOrigin::from_bits(-2).checked_sub(most), None);
    assert_eq!(FixOrigin::zero().checked_sub(least), None);
    assert_eq!(fx(1.5).checked_sub(fx(2.25)), Some(fx(-0.75)));
}

#[test]
fn checked_rotation() {
    let turn = orient(DQuat::from_rotation_z(PI / 2.0));
    let v = FixVec3::new(fx(1), fx(0), fx(0));
    assert_eq!(v.checked_rotate(turn), Some(v.rotate(turn)));
    let stretched = Orientation::new(wide(1.001), wide(0), wide(0), wide(0));
    assert_eq!(v.checked_rotate(stretched), None);
    let far = FixVec3::new(fx(1.0e14), fx(0), fx(0));
    assert_eq!(far.checked_rotate(turn), None);
    let edge = FixVec3::new(FixOrigin::from_bits(1 << 62), fx(0), fx(0));
    assert_eq!(edge.checked_rotate(Orientation::identity()), Some(edge));
}

#[test]
fn rotation_at_the_greatest_supported_magnitude() {
    let m = 1i64 << 62;
    let corner = FixVec3::new(
        FixOrigin::from_bits(m),
        FixOrigin::from_bits(-m),
        FixOrigin::from_bits(m),
    );
    let turns = [
        DQuat::from_xyzw(0.1, -0.2, 0.3, 0.9).normalize(),
        DQuat::from_axis_angle(bevy::math::DVec3::new(1.0, 1.0, -1.0).normalize(), 2.0),
        DQuat::from_axis_angle(bevy::math::DVec3::new(1.0, -1.0, 1.0).normalize(), PI),
        DQuat::from_rotation_x(1.0),
    ];
    for turn in turns {
        let res = corner.checked_rotate(orient(turn)).expect("in range");
        for c in [res.x.bits, res.y.bits, res.z.bits] {
            let c = 4 * c as i128;
            assert!(-7 * (m as i128) - 4 <= c && c <= 7 * (m as i128));
        }
    }
}

/// The documented bound on the change of the exact squared norm, in squared
/// raw steps: `43 m + 4`, and `27 |d| m^2 / 2^124` for the unit defect `d`.
fn length_tolerance(q: Orientation, m: i64) -> f64 {
    let sq = |c: FixWide| c.bits * c.bits;
    let d = sq(q.w) + sq(q.x) + sq(q.y) + sq(q.z) - (1i128 << 124);
    let m = m as f64;
    43.0 * m + 4.0 + 27.0 * (d.abs() as f64) * m * m / (2.0f64).powi(124)
}

#[test]
fn length_is_kept_within_the_documented_tolerance() {
    let turns = [
        DQuat::from_rotation_z(PI / 2.0),
        DQuat::from_xyzw(0.1, -0.2, 0.3, 0.9).normalize(),
        DQuat::from_rotation_y(0.12345),
    ];
    let vectors = [
        (FixVec3::new(fx(1.5e13), fx(0), fx(0)), fx(1.5e13).bits),
        (FixVec3::new(fx(1.5e13), fx(-1.5e13), fx(1.5e13)), fx(1.5e13).bits),
        (FixVec3::new(fx(3), fx(4), fx(12)), fx(12).bits),
        (FixVec3::new(FixOrigin::from_bits(1), FixOrigin::from_bits(-1), fx(0)), 1),
    ];
    for turn in turns {
        let q = orient(turn);
        assert!(q.is_normalized());
        for (v, m) in vectors {
            let diff = (norm2(v.rotate(q)) - norm2(v)).abs() as f64;
            assert!(diff <= length_tolerance(q, m), "{:?} by {:?}", v, q);
        }
    }
    //	an exact unit quaternion leaves the roundings alone
    let half = Orientation::new(wide(0.5), wide(0.5), wide(-0.5), wide(0.5));
    assert_eq!(length_tolerance(half, 1 << 62), 43.0 * (2.0f64).powi(62) + 4.0);
    let v = FixVec3::new(fx(1.5e13), fx(7), fx(-0.25));
    assert_eq!(norm2(v.rotate(half)), norm2(v));
}

fn next(seed: &mut u64) -> f64 {
    *seed = seed.wrapping_mul(6364136223846793005).wrapping_add(1442695040888963407);
    ((*seed >> 11) as f64) / ((1u64 << 53) as f64) * 2.0 - 1.0
}

#[test]
fn round_trip_comes_back_within_two_steps_below_and_one_above() {
    let mut seed = 12345u64;
    for _ in 0..20000 {
        let turn =
            DQuat::from_xyzw(next(&mut seed), next(&mut seed), next(&mut seed), next(&mut seed))
                .normalize();
        let q = orient(turn);
        let v = FixVec3::new(
            fx(next(&mut seed) * 1000.0),
            fx(next(&mut seed) * 1000.0),
            fx(next(&mut seed) * 1000.0),
        );
        let back = v.rotate(q).rotate(q.inverse());
        let d = back - v;
        for c in [d.x.bits, d.y.bits, d.z.bits] {
            assert!(-2 <= c && c <= 1, "{:?} by {:?} comes back as {:?}", v, q, back);
        }
    }
}

#[test]
fn round_trip_can_miss_by_two_steps() {
    let q = Orientation::new(
        FixWide::from_bits(-3156248938564350464),
        FixWide::from_bits(-1398005953899427072),
        FixWide::from_bits(-316553921285672960),
        FixWide::from_bits(3041564324184264704),
    );
    assert!(q.is_normalized());
    let v = FixVec3::new(
        FixOrigin::from_bits(-5908514),
        FixOrigin::from_bits(5300407),
        FixOrigin::from_bits(3449745),
    );
    let back = v.rotate(q).rotate(q.inverse());
    assert_eq!(raw(back), (-5908514, 5300405, 3449744));
}

#[test]
fn quaternion_that_is_no_unit_is_applied_as_it_is() {
    //	twice a half turn about z: v + 2 q x (q x v) with |q|^2 = 4
    let q = Orientation::new(wide(0), wide(0), wide(0), wide(2));
    assert!(!q.is_normalized());
    let v = FixVec3::new(fx(1), fx(0.5), fx(3));
    assert_eq!(v.rotate(q), FixVec3::new(fx(-7), fx(-3.5), fx(3)));
    assert_eq!(v.checked_rotate(q), None);
}

#[test]
fn construction_from_every_kind_of_number() {
    let from_i32 = FixVec3::new(1i32, -2i32, 3i32);
    let from_usize = FixVec3::new(1usize, fx(-2), 3usize);
    let from_wide = FixVec3::new(wide(1), wide(-2), wide(3));
    let from_floats = FixVec3::new(fx(1.0f64), fx(-2.0f32), fx(3.0f64));
    assert_eq!(from_i32, from_usize);
    assert_eq!(from_i32, from_wide);
    assert_eq!(from_i32, from_floats);
    assert_eq!(raw(from_i32), (65536, -131072, 196608));
    let w = FixVec3Wide::new(1, fx(-2), wide(3));
    assert_eq!(w, from_i32.widen());
    assert_eq!(<FixVec3 as TypeVec3>::new(1, 2usize, fx(3)), FixVec3::new(1, 2, 3));
}
