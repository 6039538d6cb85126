//! Error taxonomy and sensor bookkeeping.

use mpu6050_core::SensorData;
use mpu6050_core::error::{DeviceStatus, Mpu6050Error, SensorStatus, SensorType};
use mpu6050_core::fixed_point::FixedI16F16;

#[test]
fn test_transport_error_wrapping() {
    let e: Mpu6050Error<u8> = Mpu6050Error::from(7u8);
    assert_eq!(e, Mpu6050Error::Spi(7));
    let other: Mpu6050Error<u8> = Mpu6050Error::DeviceNotFound;
    assert_ne!(e, other);
}

#[test]
fn test_error_messages() {
    assert_eq!(
        Mpu6050Error::<u8>::InvalidConfig.message(),
        "Invalid configuration"
    );
    assert_eq!(Mpu6050Error::<u8>::Spi(3).message(), "SPI transport error");
    assert_eq!(
        Mpu6050Error::<u8>::DeviceNotFound.message(),
        "MPU6050 device not found"
    );
}

#[test]
fn test_device_status_default() {
    assert_eq!(DeviceStatus::default(), DeviceStatus::Uninitialized);
}

#[test]
fn test_sensor_status_lifecycle() {
    let mut status = SensorStatus::new(SensorType::Gyroscope);
    assert_eq!(status.sensor_type, SensorType::Gyroscope);
    assert!(status.enabled);
    assert!(!status.calibrated);
    assert_eq!(status.last_update, None);

    status.mark_calibrated();
    assert!(status.calibrated);

    status.update_timestamp(12345);
    assert_eq!(status.last_update, Some(12345));
    assert!(status.calibrated);
}

#[test]
fn test_sensor_data_default_is_zero() {
    let data: SensorData<FixedI16F16> = Default::default();
    assert_eq!(data.accel.0.to_bits(), 0);
    assert_eq!(data.accel.1.to_bits(), 0);
    assert_eq!(data.accel.2.to_bits(), 0);
    assert_eq!(data.gyro.0.to_bits(), 0);
    assert_eq!(data.gyro.1.to_bits(), 0);
    assert_eq!(data.gyro.2.to_bits(), 0);
    assert_eq!(data.temp.to_bits(), 0);
}
