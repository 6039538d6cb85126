//! Driver core for a six-axis inertial sensor (accelerometer, gyroscope,
//! temperature) behind a register-oriented serial bus.
//!
//! The crate holds the pure, verified heart of the driver: register frame
//! encoding and decoding, the configuration model, the calibration engine,
//! the raw-to-physical scaling rules, and the complementary-filter attitude
//! estimator, all parameterized over a verified numeric abstraction.
//! The bus transport itself (chip-select handling, byte exchange, delays)
//! is an external collaborator and stays outside this crate.

use vstd::prelude::*;

pub mod attitude;
pub mod bus;
pub mod calibrate;
pub mod config;
pub mod device;
pub mod error;
pub mod fixed_point;
pub mod intops;
pub mod measure;
pub mod numeric;
pub mod register;

pub use crate::config::Mpu6050Config;
pub use crate::error::{DeviceStatus, Mpu6050Error, SensorStatus, SensorType};
pub use crate::fixed_point::FixedI16F16;
pub use crate::numeric::{NumericConverter, NumericType};

verus! {

/// Snapshot of one acquisition cycle: calibrated accelerometer and
/// gyroscope triples and the temperature, in physical units.  A value
/// object owned by the caller.
#[derive(Debug)]
pub struct SensorData<T: NumericType> {
    /// Acceleration in metres per second squared, per axis.
    pub accel: (T, T, T),
    /// Angular rate in radians per second, per axis.
    pub gyro: (T, T, T),
    /// Temperature in degrees Celsius.
    pub temp: T,
}

impl<T: NumericType> Default for SensorData<T> {
    /// The all-zero snapshot.
    fn default() -> (r: Self)
        ensures
            r.accel.0.sv() == 0,
            r.accel.1.sv() == 0,
            r.accel.2.sv() == 0,
            r.gyro.0.sv() == 0,
            r.gyro.1.sv() == 0,
            r.gyro.2.sv() == 0,
            r.temp.sv() == 0,
    {
        SensorData {
            accel: (T::zero(), T::zero(), T::zero()),
            gyro: (T::zero(), T::zero(), T::zero()),
            temp: T::zero(),
        }
    }
}

} // verus!
