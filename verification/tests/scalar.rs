use fixed::types::extra::U62;
use fixed::types::I48F16;
use fixed::FixedI128;
use fixframe::math::convert::ToScalar;
use fixframe::math::orientation::Orientation;
use fixframe::math::scalar::{
    FixOrigin, FixWide, MAX_COORD, STORAGE_BITS, STORAGE_FRAC_BITS, STORAGE_ONE, WIDEN_FACTOR,
    WIDE_BITS, WIDE_FRAC_BITS, WIDE_ONE,
};

fn fx(x: f64) -> FixOrigin {
    FixOrigin::from_bits(I48F16::from_num(x).to_bits())
}

fn wide(x: f64) -> FixWide {
    FixWide::from_bits(FixedI128::<U62>::from_num(x).to_bits())
}

#[test]
fn constants_describe_the_two_scalars() {
    assert_eq!((STORAGE_BITS, STORAGE_FRAC_BITS), (64, 16));
    assert_eq!((WIDE_BITS, WIDE_FRAC_BITS), (128, 62));
    assert_eq!(STORAGE_ONE, I48F16::ONE.to_bits());
    assert_eq!(WIDE_ONE, FixedI128::<U62>::ONE.to_bits());
    assert_eq!(WIDEN_FACTOR, 1 << (WIDE_FRAC_BITS - STORAGE_FRAC_BITS));
    assert_eq!(MAX_COORD, 1 << 62);
    assert_eq!(FixOrigin::one().to_bits(), STORAGE_ONE);
    assert_eq!(FixOrigin::delta().to_bits(), I48F16::DELTA.to_bits());
    assert_eq!(FixOrigin::zero().to_bits(), 0);
    assert_eq!(FixWide::one().to_bits(), WIDE_ONE);
    assert_eq!(FixWide::delta().to_bits(), 1);
    assert_eq!(FixWide::zero().to_bits(), 0);
}

#[test]
fn integers_become_scalars() {
    let a: FixOrigin = 3i32.to_scalar();
    assert_eq!(a.bits, 3 << 16);
    let b: FixOrigin = (-7i32).to_scalar();
    assert_eq!(b.bits, -7 << 16);
    let c: FixOrigin = 5usize.to_scalar();
    assert_eq!(c.bits, 5 << 16);
    let d: FixWide = (-2i32).to_scalar();
    assert_eq!(d.bits, -2i128 << 62);
    let e: FixWide = 9usize.to_scalar();
    assert_eq!(e.bits, 9i128 << 62);
    let least: FixOrigin = i32::MIN.to_scalar();
    assert_eq!(least.bits, i64::MIN >> 16);
    let most: FixOrigin = ((1usize << 47) - 1).to_scalar();
    assert_eq!(most.bits, i64::MAX - 65535);
    assert_eq!(FixOrigin::from_i32(1), fx(1.0));
    assert_eq!(FixOrigin::from_usize(1), fx(1.0));
    assert_eq!(FixWide::from_i32(-1), wide(-1.0));
    assert_eq!(FixWide::from_usize(usize::MAX).bits, (usize::MAX as i128) << 62);
}

#[test]
fn scalars_convert_to_each_other() {
    let s = fx(-2.75);
    let same: FixOrigin = s.to_scalar();
    assert_eq!(same, s);
    let w: FixWide = s.to_scalar();
    assert_eq!(w, wide(-2.75));
    assert_eq!(w, s.widen());
    let same_wide: FixWide = w.to_scalar();
    assert_eq!(same_wide, w);
    let back: FixOrigin = w.to_scalar();
    assert_eq!(back, s);
    assert_eq!(FixWide::from_bits(-1).narrow(), FixOrigin::from_bits(-1));
    assert_eq!(FixWide::from_bits((3 << 46) + 12345).narrow(), FixOrigin::from_bits(3));
}

#[test]
fn narrowing_range() {
    assert!(wide(1.0e14).can_narrow());
    assert!(!wide(1.5e14).can_narrow());
    assert!(FixWide::from_bits((i64::MAX as i128) << 46).can_narrow());
    assert!(FixWide::from_bits(((i64::MAX as i128) << 46) + (1 << 46) - 1).can_narrow());
    assert!(!FixWide::from_bits(((i64::MAX as i128) + 1) << 46).can_narrow());
    assert!(FixWide::from_bits((i64::MIN as i128) << 46).can_narrow());
    assert!(!FixWide::from_bits(((i64::MIN as i128) << 46) - 1).can_narrow());
    assert_eq!(FixWide::from_bits((i64::MIN as i128) << 46).narrow().bits, i64::MIN);
}

#[test]
fn storage_arithmetic() {
    assert_eq!(fx(1.5) + fx(2.25), fx(3.75));
    assert_eq!(fx(1.5) - fx(2.25), fx(-0.75));
    assert_eq!(-fx(1.5), fx(-1.5));
    assert_eq!(fx(1.5) * fx(-2.5), fx(-3.75));
    assert_eq!(fx(7.5) / fx(-2.5), fx(-3.0));
    assert_eq!(fx(-1.5).abs(), fx(1.5));
    assert_eq!(fx(1.5).abs(), fx(1.5));
}

#[test]
fn storage_product_rounds_down_and_quotient_towards_zero() {
    let step = FixOrigin::delta();
    assert_eq!((step * step).bits, 0);
    assert_eq!(((-step) * step).bits, -1);
    assert_eq!((FixOrigin::from_bits(3) * fx(0.5)).bits, 1);
    assert_eq!((FixOrigin::from_bits(-3) * fx(0.5)).bits, -2);
    assert_eq!((fx(1.0) / fx(3.0)).bits, 21845);
    assert_eq!((fx(-1.0) / fx(3.0)).bits, -21845);
    assert_eq!((fx(1.0) / fx(-3.0)).bits, -21845);
    assert_eq!((fx(-1.0) / fx(-3.0)).bits, 21845);
}

#[test]
fn wide_arithmetic() {
    assert_eq!(wide(1.5) + wide(2.25), wide(3.75));
    assert_eq!(wide(1.5) - wide(2.25), wide(-0.75));
    assert_eq!(-wide(1.5), wide(-1.5));
    assert_eq!(wide(1.5) * wide(-2.5), wide(-3.75));
    assert_eq!(wide(7.5) / wide(-2.5), wide(-3.0));
    assert_eq!(wide(-1.5).abs(), wide(1.5));
    assert_eq!(wide(1.5e13) * wide(2.0), wide(3.0e13));
}

#[test]
fn wide_product_rounds_down_and_quotient_towards_zero() {
    let step = FixWide::delta();
    assert_eq!((step * step).bits, 0);
    assert_eq!(((-step) * step).bits, -1);
    assert_eq!((FixWide::from_bits(-3) * wide(0.5)).bits, -2);
    assert_eq!((wide(1.0) / wide(3.0)).bits, (1i128 << 62) / 3);
    assert_eq!((wide(-1.0) / wide(3.0)).bits, -((1i128 << 62) / 3));
}

#[test]
fn scalars_are_ordered_by_value() {
    assert!(fx(-1.0) < fx(0.5));
    assert!(FixOrigin::delta() > FixOrigin::zero());
    assert!(wide(-1.0) < wide(0.5));
}

#[test]
fn orientation_identity_and_inverse() {
    let id = Orientation::identity();
    assert_eq!(id, Orientation::new(wide(1.0), wide(0.0), wide(0.0), wide(0.0)));
    assert_eq!(id.inverse(), id);
    let q = Orientation::new(wide(0.5), wide(-0.5), wide(0.5), wide(0.5));
    assert_eq!(q.inverse(), Orientation::new(wide(0.5), wide(0.5), wide(-0.5), wide(-0.5)));
    assert_eq!(q.inverse().inverse(), q);
}

#[test]
fn orientation_unit_test() {
    assert!(Orientation::identity().is_normalized());
    assert!(Orientation::new(wide(0.5), wide(-0.5), wide(0.5), wide(0.5)).is_normalized());
    assert!(Orientation::new(wide(0.6), wide(0.0), wide(0.8), wide(0.0)).is_normalized());
    assert!(!Orientation::new(wide(0.0), wide(0.0), wide(0.0), wide(0.0)).is_normalized());
    assert!(!Orientation::new(wide(1.0), wide(1.0), wide(0.0), wide(0.0)).is_normalized());
    assert!(!Orientation::new(wide(1.001), wide(0.0), wide(0.0), wide(0.0)).is_normalized());
    assert!(Orientation::new(wide(1.0001), wide(0.0), wide(0.0), wide(0.0)).is_normalized());
    assert!(!Orientation::new(wide(0.999), wide(0.0), wide(0.0), wide(0.0)).is_normalized());
    assert!(!Orientation::new(wide(3.0e19), wide(0.0), wide(0.0), wide(0.0)).is_normalized());
    assert!(!Orientation::new(FixWide::from_bits(i128::MIN), wide(0.0), wide(0.0), wide(0.0))
        .is_normalized());
}

fn next(seed: &mut u64) -> i64 {
    *seed = seed.wrapping_mul(6364136223846793005).wrapping_add(1442695040888963407);
    (*seed >> 1) as i64 - (1i64 << 62)
}

/// Quotient rounded towards zero.
fn toward_zero(n: i128, d: i128) -> i128 {
    n / d
}

#[test]
fn storage_products_and_quotients_follow_the_integer_formulas() {
    let mut seed = 7u64;
    for _ in 0..20000 {
        let a = next(&mut seed) >> 24;
        let b = next(&mut seed) >> 24;
        let product = (a as i128 * b as i128) >> 16;
        if let Ok(bits) = i64::try_from(product) {
            assert_eq!((FixOrigin::from_bits(a) * FixOrigin::from_bits(b)).bits, bits);
        }
        if b != 0 {
            let quotient = toward_zero((a as i128) << 16, b as i128);
            if let Ok(bits) = i64::try_from(quotient) {
                assert_eq!((FixOrigin::from_bits(a) / FixOrigin::from_bits(b)).bits, bits);
            }
        }
    }
}

#[test]
fn wide_products_and_quotients_follow_the_integer_formulas() {
    let mut seed = 11u64;
    for _ in 0..20000 {
        let a = next(&mut seed) as i128;
        let b = next(&mut seed) as i128;
        assert_eq!((FixWide::from_bits(a) * FixWide::from_bits(b)).bits, (a * b) >> 62);
        let c = (next(&mut seed) >> 8) as i128;
        if b != 0 {
            assert_eq!((FixWide::from_bits(c) / FixWide::from_bits(b)).bits, toward_zero(c << 62, b));
        }
    }
    //	a product that needs 256 bits on the way
    let big = FixWide::from_bits(1i128 << 120);
    assert!(!big.can_narrow());
    assert_eq!((big * FixWide::zero()).bits, 0);
    assert_eq!((big * FixWide::from_bits(1 << 62)).bits, 1i128 << 120);
    assert_eq!((big * FixWide::from_bits(-(1 << 60))).bits, -(1i128 << 118));
    assert_eq!((big / FixWide::from_bits(1 << 63)).bits, 1i128 << 119);
}

#[test]
fn changes_of_width_follow_the_integer_formulas() {
    let mut seed = 13u64;
    for _ in 0..20000 {
        let a = next(&mut seed);
        let w = FixOrigin::from_bits(a).widen();
        assert_eq!(w.bits, (a as i128) << 46);
        let cut = w.bits + (next(&mut seed) as i128 & ((1 << 46) - 1));
        assert_eq!(FixWide::from_bits(cut).narrow().bits, a);
    }
}
