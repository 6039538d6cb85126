//! Clock source selection and power-management bit patterns.

use vstd::prelude::*;

verus! {

/// Clock source of the device, written into the low bits of the first
/// power-management register.
#[derive(Debug, Clone, Copy, PartialEq, Eq, Structural)]
pub enum ClockSource {
    /// Internal relaxation oscillator.
    Internal,
    /// Phase-locked loop referenced to the gyroscope X axis.
    PllGyroX,
    /// Phase-locked loop referenced to the gyroscope Y axis.
    PllGyroY,
    /// Phase-locked loop referenced to the gyroscope Z axis.
    PllGyroZ,
}

impl ClockSource {
    /// Bit pattern of this source in the power-management register's
    /// clock-select field.
    pub open spec fn reg_bits_spec(self) -> u8 {
        match self {
            ClockSource::Internal => 0x00,
            ClockSource::PllGyroX => 0x01,
            ClockSource::PllGyroY => 0x02,
            ClockSource::PllGyroZ => 0x03,
        }
    }

    /// Bit pattern of this source; always within the three-bit
    /// clock-select field.
    pub fn reg_bits(self) -> (r: u8)
        ensures
            r == self.reg_bits_spec(),
            r <= 0x07,
    {
        match self {
            ClockSource::Internal => 0x00,
            ClockSource::PllGyroX => 0x01,
            ClockSource::PllGyroY => 0x02,
            ClockSource::PllGyroZ => 0x03,
        }
    }
}

/// Power state bits of the first power-management register.
#[derive(Debug, Clone, Copy, PartialEq, Eq, Structural)]
pub enum PowerMode {
    /// Normal operation.
    Normal,
    /// Sleep mode.
    Sleep,
}

impl PowerMode {
    /// Bit pattern of this mode in the power-management register.
    pub open spec fn reg_bits_spec(self) -> u8 {
        match self {
            PowerMode::Normal => 0x00,
            PowerMode::Sleep => 0x40,
        }
    }

    /// Bit pattern of this mode.
    pub fn reg_bits(self) -> (r: u8)
        ensures
            r == self.reg_bits_spec(),
    {
        match self {
            PowerMode::Normal => 0x00,
            PowerMode::Sleep => 0x40,
        }
    }
}

} // verus!
