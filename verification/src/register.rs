//! Register map of the device: addresses, the identity value, and the
//! fixed physical constants of the temperature channel.

use vstd::prelude::*;

verus! {

/// Identity register address.
pub const WHO_AM_I: u8 = 0x75;

/// Expected answer of the identity register.
pub const WHO_AM_I_VALUE: u8 = 0x68;

/// First power-management register.
pub const PWR_MGMT_1: u8 = 0x6B;

/// Second power-management register.
pub const PWR_MGMT_2: u8 = 0x6C;

/// General configuration register (digital low-pass filter).
pub const CONFIG: u8 = 0x1A;

/// Gyroscope configuration register.
pub const GYRO_CONFIG: u8 = 0x1B;

/// Accelerometer configuration register.
pub const ACCEL_CONFIG: u8 = 0x1C;

/// Sample-rate divider register.
pub const SMPLRT_DIV: u8 = 0x19;

/// Interrupt enable register.
pub const INT_ENABLE: u8 = 0x38;

/// Interrupt status register.
pub const INT_STATUS: u8 = 0x3A;

/// Accelerometer X axis, high byte; five more data bytes follow.
pub const ACCEL_XOUT_H: u8 = 0x3B;

/// Accelerometer X axis, low byte.
pub const ACCEL_XOUT_L: u8 = 0x3C;

/// Accelerometer Y axis, high byte.
pub const ACCEL_YOUT_H: u8 = 0x3D;

/// Accelerometer Y axis, low byte.
pub const ACCEL_YOUT_L: u8 = 0x3E;

/// Accelerometer Z axis, high byte.
pub const ACCEL_ZOUT_H: u8 = 0x3F;

/// Accelerometer Z axis, low byte.
pub const ACCEL_ZOUT_L: u8 = 0x40;

/// Temperature, high byte.
pub const TEMP_OUT_H: u8 = 0x41;

/// Temperature, low byte.
pub const TEMP_OUT_L: u8 = 0x42;

/// Gyroscope X axis, high byte; five more data bytes follow.
pub const GYRO_XOUT_H: u8 = 0x43;

/// Gyroscope X axis, low byte.
pub const GYRO_XOUT_L: u8 = 0x44;

/// Gyroscope Y axis, high byte.
pub const GYRO_YOUT_H: u8 = 0x45;

/// Gyroscope Y axis, low byte.
pub const GYRO_YOUT_L: u8 = 0x46;

/// Gyroscope Z axis, high byte.
pub const GYRO_ZOUT_H: u8 = 0x47;

/// Gyroscope Z axis, low byte.
pub const GYRO_ZOUT_L: u8 = 0x48;

/// User control register.
pub const USER_CTRL: u8 = 0x6A;

/// FIFO enable register.
pub const FIFO_EN: u8 = 0x23;

/// FIFO count, high byte.
pub const FIFO_COUNTH: u8 = 0x72;

/// FIFO count, low byte.
pub const FIFO_COUNTL: u8 = 0x73;

/// FIFO read/write window.
pub const FIFO_R_W: u8 = 0x74;

/// Accelerometer X self-test register.
pub const SELF_TEST_X_ACCEL: u8 = 0x0D;

/// Accelerometer Y self-test register.
pub const SELF_TEST_Y_ACCEL: u8 = 0x0E;

/// Accelerometer Z self-test register.
pub const SELF_TEST_Z_ACCEL: u8 = 0x0F;

/// Gyroscope X self-test register.
pub const SELF_TEST_X_GYRO: u8 = 0x00;

/// Gyroscope Y self-test register.
pub const SELF_TEST_Y_GYRO: u8 = 0x01;

/// Gyroscope Z self-test register.
pub const SELF_TEST_Z_GYRO: u8 = 0x02;

/// Accelerometer X offset, high byte.
pub const XA_OFFSET_H: u8 = 0x77;

/// Accelerometer X offset, low byte.
pub const XA_OFFSET_L: u8 = 0x78;

/// Accelerometer Y offset, high byte.
pub const YA_OFFSET_H: u8 = 0x7A;

/// Accelerometer Y offset, low byte.
pub const YA_OFFSET_L: u8 = 0x7B;

/// Accelerometer Z offset, high byte.
pub const ZA_OFFSET_H: u8 = 0x7D;

/// Accelerometer Z offset, low byte.
pub const ZA_OFFSET_L: u8 = 0x7E;

/// Temperature scale, in hundredths of a raw count per degree: the
/// device's 333.87 counts per degree Celsius, kept integral.
pub const TEMP_SCALE_X100: u32 = 33387;

/// Temperature offset in degrees Celsius.
pub const TEMP_OFFSET_C: i32 = 21;

} // verus!
