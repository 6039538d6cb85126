//! Calibration engine: determinism, overflow safety at the extremes,
//! gravity removal, and offset atomicity.

use mpu6050_core::calibrate::CalibrationAccumulator;
use mpu6050_core::config::builder::ConfigBuilder;
use mpu6050_core::device::DeviceState;
use mpu6050_core::fixed_point::FixedI16F16;

fn default_state() -> DeviceState<FixedI16F16> {
    DeviceState::new(ConfigBuilder::new().build_unchecked())
}

#[test]
fn test_constant_stream_gyro_offsets() {
    // A noiseless stream of identical samples yields exactly that
    // sample as the offset, for any cycle count.
    for &n in &[1u16, 7, 100] {
        let mut acc = CalibrationAccumulator::new(n);
        for _ in 0..n {
            acc.add_sample(5, -3, 1000);
        }
        let mut state = default_state();
        assert!(state.apply_gyro_calibration(&acc));
        assert_eq!(state.gyro_offset, (5, -3, 1000));
    }
}

#[test]
fn test_accel_calibration_removes_gravity() {
    // A 1000-cycle accelerometer calibration on the constant stream
    // (100, -50, 16400) at the 2 g range gives (100, -50, 16).
    let mut acc = CalibrationAccumulator::new(1000);
    for _ in 0..1000 {
        acc.add_sample(100, -50, 16400);
    }
    let mut state = default_state();
    assert!(state.apply_accel_calibration(&acc));
    assert_eq!(state.accel_offset, (100, -50, 16));
    // The gyroscope offsets and the attitude are untouched.
    assert_eq!(state.gyro_offset, (0, 0, 0));
    assert_eq!(state.pitch.to_bits(), 0);
}

#[test]
fn test_accumulator_extremes_do_not_overflow() {
    // The full 65535 cycles with raw values at the 16-bit extremes.
    let mut acc = CalibrationAccumulator::new(65535);
    for _ in 0..65535 {
        acc.add_sample(32767, -32768, 32767);
    }
    assert_eq!(acc.sum_x, 32767i32 * 65535);
    assert_eq!(acc.sum_y, -32768i32 * 65535);
    let mut state = default_state();
    assert!(state.apply_gyro_calibration(&acc));
    assert_eq!(state.gyro_offset, (32767, -32768, 32767));
}

#[test]
fn test_aborted_calibration_keeps_offsets() {
    // A run stopped before its declared cycle count must leave the
    // previous offsets unchanged.
    let mut state = default_state();
    state.gyro_offset = (11, 22, 33);
    state.accel_offset = (44, 55, 66);

    let mut acc = CalibrationAccumulator::new(1000);
    for _ in 0..500 {
        acc.add_sample(100, 100, 100);
    }
    assert!(!acc.complete());
    assert!(!state.apply_gyro_calibration(&acc));
    assert!(!state.apply_accel_calibration(&acc));
    assert_eq!(state.gyro_offset, (11, 22, 33));
    assert_eq!(state.accel_offset, (44, 55, 66));

    // A declared cycle count of zero never yields offsets either.
    let empty = CalibrationAccumulator::new(0);
    assert!(!state.apply_gyro_calibration(&empty));
    assert_eq!(state.gyro_offset, (11, 22, 33));
}

#[test]
fn test_mean_truncates_toward_zero() {
    let mut acc = CalibrationAccumulator::new(4);
    acc.add_sample(5, -5, 3);
    acc.add_sample(0, 0, 0);
    acc.add_sample(0, 0, 0);
    acc.add_sample(0, 0, 0);
    // 5/4 truncates to 1; -5/4 truncates to -1 (toward zero).
    assert_eq!(acc.mean(), (1, -1, 0));
}
