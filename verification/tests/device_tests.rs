//! Device state: scaled measurement, the estimator step, Euler
//! angles, and register bit patterns.

use mpu6050_core::bus::{decode_axis_triple, decode_be_i16, decode_be_u16, read_frame, write_frame};
use mpu6050_core::config::builder::ConfigBuilder;
use mpu6050_core::config::{AccelScale, ClockSource, GyroScale};
use mpu6050_core::device::{
    DeviceState, clock_register_value, sleep_register_value, wake_register_value,
};
use mpu6050_core::fixed_point::FixedI16F16;
use mpu6050_core::numeric::NumericType;
use mpu6050_core::register::{ACCEL_XOUT_H, PWR_MGMT_1, WHO_AM_I, WHO_AM_I_VALUE};

fn fx(v: f64) -> FixedI16F16 {
    FixedI16F16::from_bits((v * 65536.0) as i32)
}

fn val(v: FixedI16F16) -> f64 {
    v.to_bits() as f64 / 65536.0
}

fn default_state() -> DeviceState<FixedI16F16> {
    DeviceState::new(ConfigBuilder::new().build_unchecked())
}

#[test]
fn test_scale_accel_at_rest() {
    // Raw (0, 0, 16384) at the 2 g range with zero offsets is one g:
    // about (0, 0, 9.81) metres per second squared.
    let state = default_state();
    let (x, y, z) = state.scale_accel((0, 0, 16384));
    assert_eq!(x.to_bits(), 0);
    assert_eq!(y.to_bits(), 0);
    assert!((val(z) - 9.81).abs() < 1e-2);
}

#[test]
fn test_scale_gyro_at_rest() {
    let state = default_state();
    let (x, y, z) = state.scale_gyro((0, 0, 0));
    assert_eq!(x.to_bits(), 0);
    assert_eq!(y.to_bits(), 0);
    assert_eq!(z.to_bits(), 0);
    // 131 raw counts at the 250-degree range is one degree per second.
    let (_, _, z1) = state.scale_gyro((0, 0, 131));
    assert!((val(z1) - core::f64::consts::PI / 180.0).abs() < 1e-3);
}

#[test]
fn test_scale_respects_offsets() {
    let mut state = default_state();
    state.accel_offset = (100, -50, 16);
    let (x, y, z) = state.scale_accel((100, -50, 16));
    assert_eq!(x.to_bits(), 0);
    assert_eq!(y.to_bits(), 0);
    assert_eq!(z.to_bits(), 0);
}

#[test]
fn test_snapshot_temperature() {
    // A zero raw temperature reading is exactly the device offset of
    // 21 degrees Celsius; 334 counts are about one degree more.
    let state = default_state();
    let snap = state.snapshot_from_raw((0, 0, 16384), (0, 0, 0), 0);
    assert_eq!(snap.temp.to_bits(), 21 * 65536);
    let snap2 = state.snapshot_from_raw((0, 0, 16384), (0, 0, 0), 334);
    assert!((val(snap2.temp) - 22.0).abs() < 1e-2);
    assert!((val(snap2.accel.2) - 9.81).abs() < 1e-2);
}

#[test]
fn test_update_at_rest_keeps_level_attitude() {
    // Zero gyroscope rates and an accelerometer reading of exactly
    // one g straight down leave pitch and roll at zero, update after
    // update, for any blend weight and time step.
    for &(alpha, dt) in &[(0.98f64, 0.01f64), (0.5, 0.5), (0.0, 1.0), (1.0, 0.02)] {
        let mut state = default_state();
        for _ in 0..10 {
            assert!(state.update((0, 0, 16384), (0, 0, 0), fx(dt), fx(alpha)));
            assert_eq!(state.pitch.to_bits(), 0);
            assert_eq!(state.roll.to_bits(), 0);
            assert_eq!(state.yaw.to_bits(), 0);
        }
    }
}

#[test]
fn test_update_integrates_yaw() {
    // A steady yaw rate integrates linearly; yaw has no tilt
    // reference and takes the integrated angle outright.
    let mut state = default_state();
    // 131 counts = 1 degree per second at the 250-degree range.
    let dt = fx(0.5);
    let alpha = fx(0.98);
    assert!(state.update((0, 0, 16384), (0, 0, 131), dt, alpha));
    let yaw1 = val(state.yaw);
    assert!((yaw1 - 0.5 * core::f64::consts::PI / 180.0).abs() < 1e-3);
    assert!(state.update((0, 0, 16384), (0, 0, 131), dt, alpha));
    assert!((val(state.yaw) - 2.0 * yaw1).abs() < 1e-3);
}

#[test]
fn test_update_tilt_converges_with_low_alpha() {
    // With the weight fully on the accelerometer, one update lands on
    // the static tilt: accel (1 g, 0, 0) means pitch of 90 degrees
    // toward the X axis... atan2(ax, sqrt(ay^2+az^2)) with az = 1 g
    // and ax = 1 g gives 45 degrees.
    let mut state = default_state();
    assert!(state.update((16384, 0, 16384), (0, 0, 0), fx(0.01), fx(0.0)));
    assert!((val(state.pitch) - core::f64::consts::PI / 4.0).abs() < 1e-2);
    assert_eq!(state.roll.to_bits(), 0);
}

#[test]
fn test_get_euler_angles() {
    let mut state = default_state();
    state.pitch = fx(core::f64::consts::PI / 2.0);
    state.roll = fx(-core::f64::consts::PI / 4.0);
    state.yaw = fx(core::f64::consts::PI);
    let (p, r, y) = state.get_euler_angles();
    assert!((val(p) - 90.0).abs() < 0.05);
    assert!((val(r) + 45.0).abs() < 0.05);
    assert!((val(y) - 180.0).abs() < 0.05);
    let alt = state.try_get_euler_angles().unwrap();
    assert_eq!(alt.0.to_bits(), p.to_bits());
}

#[test]
fn test_try_get_euler_angles_detects_overflow() {
    let mut state = default_state();
    // An angle near the representable edge cannot be converted to
    // degrees; the fallible read says so instead of faulting.
    state.yaw = FixedI16F16::from_bits(i32::MAX);
    assert!(state.try_get_euler_angles().is_none());
}

#[test]
fn test_complementary_filter_blend() {
    let mut state = default_state();
    // alpha 0.75 between a gyro angle of 1.0 and an accel angle of
    // 0.5: 0.75 + 0.125 = 0.875.
    state.complementary_filter(fx(0.5), fx(0.5), fx(1.0), fx(1.0), fx(2.0), fx(0.75));
    assert!((val(state.pitch) - 0.875).abs() < 1e-3);
    assert!((val(state.roll) - 0.875).abs() < 1e-3);
    assert_eq!(state.yaw.to_bits(), fx(2.0).to_bits());
}

#[test]
fn test_register_bit_helpers() {
    assert_eq!(sleep_register_value(0x01), 0x41);
    assert_eq!(wake_register_value(0x41), 0x01);
    assert_eq!(clock_register_value(0xFF, ClockSource::Internal), 0xF8);
    assert_eq!(clock_register_value(0x40, ClockSource::PllGyroX), 0x41);
    assert_eq!(PWR_MGMT_1, 0x6B);
    assert_eq!(WHO_AM_I, 0x75);
    assert_eq!(WHO_AM_I_VALUE, 0x68);
}

#[test]
fn test_frames_and_decoding() {
    assert_eq!(read_frame(WHO_AM_I, 1), vec![0xF5, 0]);
    assert_eq!(read_frame(ACCEL_XOUT_H, 6), vec![0xBB, 0, 0, 0, 0, 0, 0]);
    assert_eq!(write_frame(PWR_MGMT_1, 0x00), vec![0x6B, 0x00]);
    assert_eq!(write_frame(0xF5, 7), vec![0x75, 7]);

    assert_eq!(decode_be_i16(0x12, 0x34), 0x1234);
    assert_eq!(decode_be_i16(0xFF, 0xFF), -1);
    assert_eq!(decode_be_i16(0x80, 0x00), -32768);
    assert_eq!(decode_be_u16(0x12, 0x34), 0x1234);
    assert_eq!(decode_be_u16(0xFF, 0xFF), 0xFFFF);
    assert_eq!(
        decode_axis_triple(&[0x01, 0x00, 0xFF, 0x00, 0x00, 0x05]),
        (256, -256, 5)
    );
}

#[test]
fn test_device_state_constructors() {
    let state = default_state();
    assert_eq!(state.accel_offset, (0, 0, 0));
    assert_eq!(state.gyro_offset, (0, 0, 0));
    assert_eq!(state.pitch.to_bits(), 0);

    let custom = DeviceState::with_attitude(
        ConfigBuilder::new()
            .accel_scale(AccelScale::Scale4G)
            .gyro_scale(GyroScale::Scale500)
            .build_unchecked(),
        (1, 2, 3),
        (4, 5, 6),
        fx(0.1),
        fx(0.2),
        fx(0.3),
    );
    assert_eq!(custom.config.accel_scale, AccelScale::Scale4G);
    assert_eq!(custom.accel_offset, (1, 2, 3));
    assert_eq!(custom.gyro_offset, (4, 5, 6));
    assert_eq!(custom.yaw.to_bits(), fx(0.3).to_bits());
}
