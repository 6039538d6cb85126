//! Scaled measurement: raw ADC counts to physical units.
//!
//! Every axis is corrected by its calibration offset and scaled by the
//! configured full-scale divisor: metres per second squared for the
//! accelerometer (9.81 per g), radians per second for the gyroscope
//! (pi over 180 per degree), degrees Celsius for the temperature
//! channel (an affine map with fixed device constants).
//!
//! All scaling arithmetic happens in the wide 64-bit canonical
//! representation and is converted into the target scalar type at the
//! end: a deliberate precision-for-robustness trade that keeps
//! fixed-point intermediates from overflowing.

use vstd::prelude::*;

use crate::config::scale::{AccelScale, GyroScale};
use crate::intops::{div_i64, trunc_div};
use crate::numeric::NumericType;
use crate::register::{TEMP_OFFSET_C, TEMP_SCALE_X100};

verus! {

/// Pi in the wide representation (`3.14159... * 2^32`, rounded toward
/// zero).
pub const PI_WIDE: i64 = 13493037704;

/// Acceleration of one g, in hundredths of a metre per second squared.
pub const G_X100: i64 = 981;

/// Wide reading of one accelerometer axis: the offset-corrected count,
/// times 9.81 per g, over the counts-per-g divisor.
pub open spec fn accel_wide_spec(raw: i16, offset: i16, lsb_per_g: u16) -> int {
    trunc_div((raw - offset) * 981 * 0x1_0000_0000, 100 * lsb_per_g)
}

/// Wide reading of one gyroscope axis: the offset-corrected count,
/// over the counts-per-degree divisor, times pi over 180.
pub open spec fn gyro_wide_spec(raw: i16, offset: i16, lsb_per_dps_x10: u16) -> int {
    trunc_div((raw - offset) * 10 * (PI_WIDE as int), 180 * lsb_per_dps_x10)
}

/// Wide reading of the temperature channel: the raw count over the
/// device's scale, plus its offset, in degrees Celsius.
pub open spec fn temp_wide_spec(raw: i16) -> int {
    trunc_div(raw * 100 * 0x1_0000_0000, TEMP_SCALE_X100 as int) + (TEMP_OFFSET_C as int)
        * 0x1_0000_0000
}

/// Scales one offset-corrected accelerometer axis into metres per
/// second squared.
pub fn scale_accel_axis<T: NumericType>(raw: i16, offset: i16, scale: AccelScale) -> (r: T)
    ensures
        r.sv() == T::from_wide_s(accel_wide_spec(raw, offset, scale.lsb_per_g_spec())),
{
    let diff: i64 = raw as i64 - offset as i64;
    let num: i64 = diff * G_X100 * 0x1_0000_0000i64;
    let den: i64 = 100 * (scale.lsb_per_g() as i64);
    let w: i64 = div_i64(num, den);
    T::from_wide(w)
}

/// Scales one offset-corrected gyroscope axis into radians per second.
pub fn scale_gyro_axis<T: NumericType>(raw: i16, offset: i16, scale: GyroScale) -> (r: T)
    ensures
        r.sv() == T::from_wide_s(gyro_wide_spec(raw, offset, scale.lsb_per_dps_x10_spec())),
{
    let diff: i64 = raw as i64 - offset as i64;
    let num: i64 = diff * 10 * PI_WIDE;
    let den: i64 = 180 * (scale.lsb_per_dps_x10() as i64);
    let w: i64 = div_i64(num, den);
    T::from_wide(w)
}

/// Scales the raw temperature count into degrees Celsius.
pub fn scale_temp<T: NumericType>(raw: i16) -> (r: T)
    ensures
        r.sv() == T::from_wide_s(temp_wide_spec(raw)),
{
    let num: i64 = (raw as i64) * 100 * 0x1_0000_0000i64;
    let w: i64 = div_i64(num, TEMP_SCALE_X100 as i64);
    let shifted: i64 = w + (TEMP_OFFSET_C as i64) * 0x1_0000_0000i64;
    T::from_wide(shifted)
}

/// Scales a full offset-corrected accelerometer triple.
pub fn scale_accel_triple<T: NumericType>(
    raw: (i16, i16, i16),
    offset: (i16, i16, i16),
    scale: AccelScale,
) -> (r: (T, T, T))
    ensures
        r.0.sv() == T::from_wide_s(accel_wide_spec(raw.0, offset.0, scale.lsb_per_g_spec())),
        r.1.sv() == T::from_wide_s(accel_wide_spec(raw.1, offset.1, scale.lsb_per_g_spec())),
        r.2.sv() == T::from_wide_s(accel_wide_spec(raw.2, offset.2, scale.lsb_per_g_spec())),
{
    (
        scale_accel_axis(raw.0, offset.0, scale),
        scale_accel_axis(raw.1, offset.1, scale),
        scale_accel_axis(raw.2, offset.2, scale),
    )
}

/// Scales a full offset-corrected gyroscope triple.
pub fn scale_gyro_triple<T: NumericType>(
    raw: (i16, i16, i16),
    offset: (i16, i16, i16),
    scale: GyroScale,
) -> (r: (T, T, T))
    ensures
        r.0.sv() == T::from_wide_s(
            gyro_wide_spec(raw.0, offset.0, scale.lsb_per_dps_x10_spec()),
        ),
        r.1.sv() == T::from_wide_s(
            gyro_wide_spec(raw.1, offset.1, scale.lsb_per_dps_x10_spec()),
        ),
        r.2.sv() == T::from_wide_s(
            gyro_wide_spec(raw.2, offset.2, scale.lsb_per_dps_x10_spec()),
        ),
{
    (
        scale_gyro_axis(raw.0, offset.0, scale),
        scale_gyro_axis(raw.1, offset.1, scale),
        scale_gyro_axis(raw.2, offset.2, scale),
    )
}

} // verus!
