//! The fixed-point scalar: arithmetic, square root, arctangent, and
//! the canonical wide representation.

use fixed::FixedI32;
use fixed::types::extra::U16;
use mpu6050_core::fixed_point::FixedI16F16;
use mpu6050_core::numeric::{NumericConverter, NumericType};

fn fx(v: f64) -> FixedI16F16 {
    FixedI16F16::from_bits((v * 65536.0) as i32)
}

fn val(v: FixedI16F16) -> f64 {
    v.to_bits() as f64 / 65536.0
}

#[test]
fn test_identities_and_raw_conversion() {
    assert_eq!(FixedI16F16::zero().to_bits(), 0);
    assert_eq!(FixedI16F16::one().to_bits(), 65536);
    assert_eq!(FixedI16F16::from_raw_i16(180).to_bits(), 180 * 65536);
    assert_eq!(FixedI16F16::from_raw_i16(-32768).to_bits(), i32::MIN);
    assert_eq!(FixedI16F16::from_raw_i16(32767).to_bits(), 32767 * 65536);
}

#[test]
fn test_basic_arithmetic() {
    let a = fx(2.5);
    let b = fx(1.25);
    assert_eq!(a.add_val(b).to_bits(), fx(3.75).to_bits());
    assert_eq!(a.sub_val(b).to_bits(), fx(1.25).to_bits());
    assert_eq!(a.mul_val(b).to_bits(), fx(3.125).to_bits());
    assert_eq!(a.div_val(b).to_bits(), fx(2.0).to_bits());
    assert_eq!(a.neg_val().to_bits(), fx(-2.5).to_bits());
    assert_eq!(fx(-2.5).abs_val().to_bits(), fx(2.5).to_bits());
    assert!(b.lt(a));
    assert!(b.le(b));
    assert!(!a.le(b));
}

#[test]
fn test_checked_arithmetic_overflow() {
    let big = FixedI16F16::from_bits(i32::MAX);
    assert!(big.checked_add(FixedI16F16::one()).is_none());
    assert!(big.checked_mul(big).is_none());
    assert!(big.checked_sub(FixedI16F16::from_bits(i32::MIN)).is_none());
    // Division by zero is refused, not a fault.
    assert!(FixedI16F16::one().checked_div(FixedI16F16::zero()).is_none());
    assert_eq!(
        fx(1.0).checked_div(fx(4.0)).unwrap().to_bits(),
        fx(0.25).to_bits()
    );
}

#[test]
fn test_sqrt_matches_reference() {
    for &v in &[0.25f64, 1.0, 2.0, 2.25, 4.0, 100.0, 0.01, 12345.678] {
        let got = val(fx(v).sqrt());
        let want = v.sqrt();
        assert!((got - want).abs() < 1e-2, "sqrt({v}): got {got}, want {want}");
    }
}

#[test]
fn test_sqrt_non_positive_is_zero() {
    assert_eq!(fx(0.0).sqrt().to_bits(), 0);
    assert_eq!(fx(-4.0).sqrt().to_bits(), 0);
    assert_eq!(FixedI16F16::from_bits(i32::MIN).sqrt().to_bits(), 0);
}

#[test]
fn test_atan2_matches_math_library() {
    // For az > 0 the angle must match the standard library value
    // within the fixed-point tolerance of 1e-2 radians.
    let cases = [
        (0.0f32, 1.0f32),
        (0.5, 1.0),
        (1.0, 1.0),
        (-1.0, 2.0),
        (2.0, 0.5),
        (-3.0, 0.25),
        (0.1, 10.0),
        (7.5, 3.0),
    ];
    for &(y, x) in &cases {
        let got = val(FixedI16F16::atan2(fx(y as f64), fx(x as f64)));
        let want = libm::atan2f(y, x) as f64;
        assert!(
            (got - want).abs() < 1e-2,
            "atan2({y}, {x}): got {got}, want {want}"
        );
    }
}

#[test]
fn test_atan2_quadrants_and_axes() {
    // Exact values on the axes, per the documented policy.
    assert_eq!(FixedI16F16::atan2(fx(0.0), fx(5.0)).to_bits(), 0);
    assert_eq!(FixedI16F16::atan2(fx(0.0), fx(0.0)).to_bits(), 0);
    assert_eq!(FixedI16F16::atan2(fx(0.0), fx(-5.0)).to_bits(), 205887);
    assert_eq!(FixedI16F16::atan2(fx(3.0), fx(0.0)).to_bits(), 102943);
    assert_eq!(FixedI16F16::atan2(fx(-3.0), fx(0.0)).to_bits(), -102943);
    // Quadrant checks against the math library.
    for &(y, x) in &[(1.0f32, -1.0f32), (-1.0, -1.0), (-1.0, 1.0)] {
        let got = val(FixedI16F16::atan2(fx(y as f64), fx(x as f64)));
        let want = libm::atan2f(y, x) as f64;
        assert!(
            (got - want).abs() < 1e-2,
            "atan2({y}, {x}): got {got}, want {want}"
        );
    }
}

#[test]
fn test_atan2_diagonal_is_exact_quarter_pi() {
    for &v in &[0.5f64, 1.0, 2.0, 1000.0] {
        let r = FixedI16F16::atan2(fx(v), fx(v));
        assert_eq!(r.to_bits(), 51471);
    }
}

#[test]
fn test_pi_and_degree_constants() {
    assert_eq!(FixedI16F16::pi().to_bits(), 205887);
    let d2r = val(FixedI16F16::deg_to_rad());
    let r2d = val(FixedI16F16::rad_to_deg());
    assert!((d2r - core::f64::consts::PI / 180.0).abs() < 1e-3);
    assert!((r2d - 180.0 / core::f64::consts::PI).abs() < 1e-3);
}

#[test]
fn test_wide_round_trip() {
    // The canonical wide representation recovers every value exactly.
    for &b in &[0i32, 1, -1, 65536, -65536, 205887, i32::MAX, i32::MIN] {
        let v = FixedI16F16::from_bits(b);
        assert_eq!(FixedI16F16::from_wide(v.to_wide()).to_bits(), b);
    }
    // Out-of-range wide values saturate.
    assert_eq!(FixedI16F16::from_wide(i64::MAX).to_bits(), i32::MAX);
    assert_eq!(FixedI16F16::from_wide(i64::MIN).to_bits(), i32::MIN);
}

#[test]
fn test_float_round_trip_within_one_lsb() {
    // Converting through a 32-bit float recovers a Q16.16 value within
    // one least-significant bit; the representation agrees with the
    // reference fixed-point crate.
    for &v in &[0.0f32, 1.5, -2.25, 3.14159, 100.125, -0.0001] {
        let a = FixedI32::<U16>::from_num(v);
        let ours = FixedI16F16::from_bits(a.to_bits());
        let back = FixedI32::<U16>::from_num(a.to_num::<f32>());
        assert!((ours.to_bits() - back.to_bits()).abs() <= 1);
    }
    assert_eq!(
        FixedI32::<U16>::from_num(1.5f32).to_bits(),
        fx(1.5).to_bits()
    );
}

#[test]
fn test_convert_sensor_data() {
    // 100 raw counts at the 131.0-per-unit divisor, no offset.
    let (x, y, z): (FixedI16F16, FixedI16F16, FixedI16F16) =
        NumericConverter::convert_sensor_data((100, 0, -131), 1310, (0, 0, 0));
    assert!((val(x) - 100.0 / 131.0).abs() < 1e-3);
    assert_eq!(y.to_bits(), 0);
    assert!((val(z) + 1.0).abs() < 1e-3);
    // The offset is subtracted before scaling.
    let (x2, _, _): (FixedI16F16, FixedI16F16, FixedI16F16) =
        NumericConverter::convert_sensor_data((100, 0, 0), 1310, (100, 0, 0));
    assert_eq!(x2.to_bits(), 0);
}

#[test]
fn test_converter_degree_radian_helpers() {
    let rad = NumericConverter::deg_to_rad(fx(90.0));
    assert!((val(rad) - core::f64::consts::PI / 2.0).abs() < 1e-2);
    let deg = NumericConverter::rad_to_deg(fx(core::f64::consts::PI));
    assert!((val(deg) - 180.0).abs() < 1e-2);
}
