//! Error taxonomy and sensor bookkeeping types.
//!
//! Every fallible operation of the driver returns a result whose error
//! distinguishes a transport failure (carried through untouched, never
//! retried) from the driver's own failure modes.

use vstd::prelude::*;

verus! {

/// Unified error of the driver.  `SpiError` is the opaque error type of
/// the bus transport; a transport failure is propagated inside `Spi`.
#[derive(Debug, Clone, PartialEq)]
pub enum Mpu6050Error<SpiError> {
    /// The bus exchange failed; the transport's own error is carried.
    Spi(SpiError),
    /// The identity register did not answer with the expected value.
    DeviceNotFound,
    /// The configuration broke a build-time validation rule.
    InvalidConfig,
    /// Sensor calibration could not finish.
    CalibrationFailed,
    /// A data read could not be completed.
    DataReadFailed,
    /// A FIFO operation failed.
    FifoError,
    /// Interrupt configuration failed.
    InterruptError,
    /// A numeric conversion was not possible.
    ConversionError,
}

impl<SpiError> Mpu6050Error<SpiError> {
    /// A fixed description of the failure mode, one per variant; the
    /// transport's own error is not rendered here.
    pub fn message(&self) -> (r: &'static str)
        ensures
            self is Spi ==> r@ == "SPI transport error"@,
            self is DeviceNotFound ==> r@ == "MPU6050 device not found"@,
            self is InvalidConfig ==> r@ == "Invalid configuration"@,
            self is CalibrationFailed ==> r@ == "Sensor calibration failed"@,
            self is DataReadFailed ==> r@ == "Failed to read sensor data"@,
            self is FifoError ==> r@ == "FIFO operation error"@,
            self is InterruptError ==> r@ == "Interrupt configuration error"@,
            self is ConversionError ==> r@ == "Numeric conversion error"@,
    {
        match self {
            Mpu6050Error::Spi(_) => "SPI transport error",
            Mpu6050Error::DeviceNotFound => "MPU6050 device not found",
            Mpu6050Error::InvalidConfig => "Invalid configuration",
            Mpu6050Error::CalibrationFailed => "Sensor calibration failed",
            Mpu6050Error::DataReadFailed => "Failed to read sensor data",
            Mpu6050Error::FifoError => "FIFO operation error",
            Mpu6050Error::InterruptError => "Interrupt configuration error",
            Mpu6050Error::ConversionError => "Numeric conversion error",
        }
    }
}

impl<SpiError> From<SpiError> for Mpu6050Error<SpiError> {
    /// Wraps a transport error.
    fn from(error: SpiError) -> (r: Self) {
        Mpu6050Error::Spi(error)
    }
}

impl<SpiError> vstd::std_specs::convert::FromSpecImpl<SpiError> for Mpu6050Error<SpiError> {
    open spec fn obeys_from_spec() -> bool {
        true
    }

    open spec fn from_spec(error: SpiError) -> Self {
        Mpu6050Error::Spi(error)
    }
}

/// Validation contract for configuration objects: `validate` succeeds
/// exactly on the configurations the implementation declares valid, and
/// rejects the rest as `InvalidConfig`.
pub trait ConfigValidation {
    /// Which configurations count as valid.
    spec fn valid_spec(&self) -> bool;

    /// Checks the configuration against its validation rules.
    fn validate(&self) -> (r: Result<(), Mpu6050Error<()>>)
        ensures
            r is Ok <==> self.valid_spec(),
            !self.valid_spec() ==> r == Result::<(), Mpu6050Error<()>>::Err(
                Mpu6050Error::InvalidConfig,
            ),
    ;
}

/// Lifecycle stage of the device instance.
#[derive(Debug, Clone, Copy, PartialEq, Eq, Structural, Default)]
pub enum DeviceStatus {
    /// No initialization has been performed.
    #[default]
    Uninitialized,
    /// Basic initialization has completed.
    Initialized,
    /// Offsets have been established by calibration.
    Calibrated,
    /// The device is in an error state.
    Error,
}

/// One of the three sensors of the device.
#[derive(Debug, Clone, Copy, PartialEq, Eq, Structural)]
pub enum SensorType {
    /// The accelerometer.
    Accelerometer,
    /// The gyroscope.
    Gyroscope,
    /// The temperature sensor.
    Temperature,
}

/// Bookkeeping record for one sensor.
#[derive(Debug, Clone, Copy, PartialEq, Eq, Structural)]
pub struct SensorStatus {
    /// Which sensor this record describes.
    pub sensor_type: SensorType,
    /// Whether calibration has been performed.
    pub calibrated: bool,
    /// Whether the sensor is enabled.
    pub enabled: bool,
    /// Timestamp of the last update, if any.
    pub last_update: Option<u64>,
}

impl SensorStatus {
    /// A fresh record: enabled, not calibrated, never updated.
    pub fn new(sensor_type: SensorType) -> (r: Self)
        ensures
            r.sensor_type == sensor_type,
            !r.calibrated,
            r.enabled,
            r.last_update is None,
    {
        SensorStatus { sensor_type, calibrated: false, enabled: true, last_update: None }
    }

    /// Records that calibration has completed; nothing else changes.
    pub fn mark_calibrated(&mut self)
        ensures
            final(self).calibrated,
            final(self).sensor_type == old(self).sensor_type,
            final(self).enabled == old(self).enabled,
            final(self).last_update == old(self).last_update,
    {
        self.calibrated = true;
    }

    /// Records the time of the latest update; nothing else changes.
    pub fn update_timestamp(&mut self, timestamp: u64)
        ensures
            final(self).last_update == Some(timestamp),
            final(self).sensor_type == old(self).sensor_type,
            final(self).calibrated == old(self).calibrated,
            final(self).enabled == old(self).enabled,
    {
        self.last_update = Some(timestamp);
    }
}

} // verus!
