//! Attitude estimation building blocks: tilt, integration, fusion.

use mpu6050_core::attitude::{fuse_axis, integrate_axis, tilt_from_accel};
use mpu6050_core::fixed_point::FixedI16F16;
use mpu6050_core::numeric::NumericType;

fn fx(v: f64) -> FixedI16F16 {
    FixedI16F16::from_bits((v * 65536.0) as i32)
}

fn val(v: FixedI16F16) -> f64 {
    v.to_bits() as f64 / 65536.0
}

#[test]
fn test_tilt_from_accel_level() {
    // Gravity straight down: both tilt angles are exactly zero.
    let (pitch, roll) = tilt_from_accel(fx(0.0), fx(0.0), fx(9.81)).unwrap();
    assert_eq!(pitch.to_bits(), 0);
    assert_eq!(roll.to_bits(), 0);
}

#[test]
fn test_tilt_from_accel_inclined() {
    // Equal X and Z components: pitch of 45 degrees, roll of zero.
    let (pitch, roll) = tilt_from_accel(fx(1.0), fx(0.0), fx(1.0)).unwrap();
    assert!((val(pitch) - core::f64::consts::PI / 4.0).abs() < 1e-2);
    assert_eq!(roll.to_bits(), 0);
    // Roll follows atan2 of Y against Z.
    let (_, roll2) = tilt_from_accel(fx(0.0), fx(1.0), fx(1.0)).unwrap();
    assert!((val(roll2) - core::f64::consts::PI / 4.0).abs() < 1e-2);
}

#[test]
fn test_tilt_overflow_is_reported() {
    let huge = FixedI16F16::from_bits(i32::MAX);
    assert!(tilt_from_accel(fx(0.0), huge, huge).is_none());
}

#[test]
fn test_integrate_axis() {
    let r = integrate_axis(fx(1.0), fx(2.0), fx(0.5)).unwrap();
    assert_eq!(r.to_bits(), fx(2.0).to_bits());
    // Zero rate leaves the angle untouched, for any time step.
    let r2 = integrate_axis(fx(1.25), fx(0.0), fx(123.0)).unwrap();
    assert_eq!(r2.to_bits(), fx(1.25).to_bits());
    // An integration that would overflow is reported, not wrapped.
    let big = FixedI16F16::from_bits(i32::MAX);
    assert!(integrate_axis(big, fx(1.0), fx(1.0)).is_none());
}

#[test]
fn test_fuse_axis_blend() {
    // 0.25 * 2.0 + 0.75 * 1.0 = 1.25.
    let r = fuse_axis(fx(0.25), fx(2.0), fx(1.0)).unwrap();
    assert!((val(r) - 1.25).abs() < 1e-3);
    // The extremes hand back one side exactly.
    let gyro_only = fuse_axis(fx(1.0), fx(2.0), fx(1.0)).unwrap();
    assert_eq!(gyro_only.to_bits(), fx(2.0).to_bits());
    let accel_only = fuse_axis(fx(0.0), fx(2.0), fx(1.0)).unwrap();
    assert_eq!(accel_only.to_bits(), fx(1.0).to_bits());
}

#[test]
fn test_atan2_odd_in_y() {
    for &(y, x) in &[(1.0f64, 2.0f64), (0.5, -1.0), (3.0, 0.0)] {
        let pos = FixedI16F16::atan2(fx(y), fx(x));
        let neg = FixedI16F16::atan2(fx(-y), fx(x));
        assert_eq!(neg.to_bits(), -pos.to_bits());
    }
}
