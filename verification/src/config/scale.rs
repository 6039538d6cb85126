//! Full-scale ranges of the accelerometer and the gyroscope.
//!
//! Each range carries two fixed tables: the bit pattern written to the
//! device's configuration register, and the LSB-per-unit divisor used to
//! turn raw counts into physical units.

use vstd::prelude::*;

verus! {

/// Configured accelerometer full-scale range.
#[derive(Debug, Clone, Copy, PartialEq, Eq, Structural)]
pub enum AccelScale {
    /// Plus or minus 2 g.
    Scale2G,
    /// Plus or minus 4 g.
    Scale4G,
    /// Plus or minus 8 g.
    Scale8G,
    /// Plus or minus 16 g.
    Scale16G,
}

impl AccelScale {
    /// Bit pattern of this range in the accelerometer configuration
    /// register.
    pub open spec fn reg_bits_spec(self) -> u8 {
        match self {
            AccelScale::Scale2G => 0x00,
            AccelScale::Scale4G => 0x08,
            AccelScale::Scale8G => 0x10,
            AccelScale::Scale16G => 0x18,
        }
    }

    /// Raw counts per g at this range.
    pub open spec fn lsb_per_g_spec(self) -> u16 {
        match self {
            AccelScale::Scale2G => 16384,
            AccelScale::Scale4G => 8192,
            AccelScale::Scale8G => 4096,
            AccelScale::Scale16G => 2048,
        }
    }

    /// Bit pattern of this range in the accelerometer configuration
    /// register.
    pub fn reg_bits(self) -> (r: u8)
        ensures
            r == self.reg_bits_spec(),
    {
        match self {
            AccelScale::Scale2G => 0x00,
            AccelScale::Scale4G => 0x08,
            AccelScale::Scale8G => 0x10,
            AccelScale::Scale16G => 0x18,
        }
    }

    /// Raw counts per g at this range; the divisor of the scaled
    /// measurement.  Never zero.
    pub fn lsb_per_g(self) -> (r: u16)
        ensures
            r == self.lsb_per_g_spec(),
            r >= 1,
    {
        match self {
            AccelScale::Scale2G => 16384,
            AccelScale::Scale4G => 8192,
            AccelScale::Scale8G => 4096,
            AccelScale::Scale16G => 2048,
        }
    }
}

/// Configured gyroscope full-scale range.
#[derive(Debug, Clone, Copy, PartialEq, Eq, Structural)]
pub enum GyroScale {
    /// Plus or minus 250 degrees per second.
    Scale250,
    /// Plus or minus 500 degrees per second.
    Scale500,
    /// Plus or minus 1000 degrees per second.
    Scale1000,
    /// Plus or minus 2000 degrees per second.
    Scale2000,
}

impl GyroScale {
    /// Bit pattern of this range in the gyroscope configuration
    /// register.
    pub open spec fn reg_bits_spec(self) -> u8 {
        match self {
            GyroScale::Scale250 => 0x00,
            GyroScale::Scale500 => 0x08,
            GyroScale::Scale1000 => 0x10,
            GyroScale::Scale2000 => 0x18,
        }
    }

    /// Ten times the raw counts per degree-per-second at this range
    /// (the device tables carry half counts, so the divisor is kept
    /// scaled by ten to stay integral: 131.0, 65.5, 32.8, 16.4).
    pub open spec fn lsb_per_dps_x10_spec(self) -> u16 {
        match self {
            GyroScale::Scale250 => 1310,
            GyroScale::Scale500 => 655,
            GyroScale::Scale1000 => 328,
            GyroScale::Scale2000 => 164,
        }
    }

    /// Bit pattern of this range in the gyroscope configuration
    /// register.
    pub fn reg_bits(self) -> (r: u8)
        ensures
            r == self.reg_bits_spec(),
    {
        match self {
            GyroScale::Scale250 => 0x00,
            GyroScale::Scale500 => 0x08,
            GyroScale::Scale1000 => 0x10,
            GyroScale::Scale2000 => 0x18,
        }
    }

    /// Ten times the raw counts per degree-per-second at this range.
    /// Never zero.
    pub fn lsb_per_dps_x10(self) -> (r: u16)
        ensures
            r == self.lsb_per_dps_x10_spec(),
            r >= 1,
    {
        match self {
            GyroScale::Scale250 => 1310,
            GyroScale::Scale500 => 655,
            GyroScale::Scale1000 => 328,
            GyroScale::Scale2000 => 164,
        }
    }
}

} // verus!
