//! Configuration model: full-scale ranges, filtering, clocking, and the
//! builders that assemble a device configuration.

use vstd::prelude::*;

pub mod builder;
pub mod clock;
pub mod config_struct;
pub mod interrupt;
pub mod scale;

pub use builder::ConfigBuilder as NewConfigBuilder;
pub use clock::{ClockSource, PowerMode};
pub use config_struct::{ConfigBuilder, Mpu6050Config, calculate_sample_rate_divider};
pub use interrupt::InterruptType;
pub use scale::{AccelScale, GyroScale};

verus! {

/// Gyroscope range selector carrying the register bit pattern of each
/// range.
#[derive(Debug, Clone, Copy, PartialEq, Eq, Structural)]
pub enum GyroType {
    /// Plus or minus 250 degrees per second.
    Gyro250,
    /// Plus or minus 500 degrees per second.
    Gyro500,
    /// Plus or minus 1000 degrees per second.
    Gyro1000,
    /// Plus or minus 2000 degrees per second.
    Gyro2000,
}

impl GyroType {
    /// Bit pattern of this range in the gyroscope configuration
    /// register.
    pub open spec fn reg_bits_spec(self) -> u8 {
        match self {
            GyroType::Gyro250 => 0x00,
            GyroType::Gyro500 => 0x08,
            GyroType::Gyro1000 => 0x10,
            GyroType::Gyro2000 => 0x18,
        }
    }

    /// Bit pattern of this range.
    pub fn reg_bits(self) -> (r: u8)
        ensures
            r == self.reg_bits_spec(),
    {
        match self {
            GyroType::Gyro250 => 0x00,
            GyroType::Gyro500 => 0x08,
            GyroType::Gyro1000 => 0x10,
            GyroType::Gyro2000 => 0x18,
        }
    }
}

/// Accelerometer range selector carrying the register bit pattern of
/// each range.
#[derive(Debug, Clone, Copy, PartialEq, Eq, Structural)]
pub enum AccelType {
    /// Plus or minus 2 g.
    Acc2g,
    /// Plus or minus 4 g.
    Acc4g,
    /// Plus or minus 8 g.
    Acc8g,
    /// Plus or minus 16 g.
    Acc10g,
}

impl AccelType {
    /// Bit pattern of this range in the accelerometer configuration
    /// register.
    pub open spec fn reg_bits_spec(self) -> u8 {
        match self {
            AccelType::Acc2g => 0x00,
            AccelType::Acc4g => 0x08,
            AccelType::Acc8g => 0x10,
            AccelType::Acc10g => 0x18,
        }
    }

    /// Bit pattern of this range.
    pub fn reg_bits(self) -> (r: u8)
        ensures
            r == self.reg_bits_spec(),
    {
        match self {
            AccelType::Acc2g => 0x00,
            AccelType::Acc4g => 0x08,
            AccelType::Acc8g => 0x10,
            AccelType::Acc10g => 0x18,
        }
    }
}

/// FIFO source enable bits.
#[derive(Debug, Clone, Copy, PartialEq, Eq, Structural)]
pub enum FifoEnType {
    /// No source enabled.
    FifiDisable,
    /// Accelerometer output.
    AccOut,
    /// Gyroscope X output.
    GyroXout,
    /// Gyroscope Y output.
    GyroYout,
    /// Gyroscope Z output.
    GyroZout,
    /// Temperature output.
    TempOut,
}

impl FifoEnType {
    /// Bit pattern of this source in the FIFO enable register.
    pub open spec fn reg_bits_spec(self) -> u8 {
        match self {
            FifoEnType::FifiDisable => 0x00,
            FifoEnType::AccOut => 0x08,
            FifoEnType::GyroXout => 0x10,
            FifoEnType::GyroYout => 0x20,
            FifoEnType::GyroZout => 0x40,
            FifoEnType::TempOut => 0x80,
        }
    }

    /// Bit pattern of this source.
    pub fn reg_bits(self) -> (r: u8)
        ensures
            r == self.reg_bits_spec(),
    {
        match self {
            FifoEnType::FifiDisable => 0x00,
            FifoEnType::AccOut => 0x08,
            FifoEnType::GyroXout => 0x10,
            FifoEnType::GyroYout => 0x20,
            FifoEnType::GyroZout => 0x40,
            FifoEnType::TempOut => 0x80,
        }
    }
}

/// Digital low-pass filter bandwidth.
#[derive(Debug, Clone, Copy, PartialEq, Eq, Structural)]
pub enum DlpfConfig {
    /// Filtering disabled.
    Disabled,
    /// 188 Hz bandwidth.
    Bandwidth188Hz,
    /// 98 Hz bandwidth.
    Bandwidth98Hz,
    /// 42 Hz bandwidth.
    Bandwidth42Hz,
    /// 20 Hz bandwidth.
    Bandwidth20Hz,
    /// 10 Hz bandwidth.
    Bandwidth10Hz,
    /// 5 Hz bandwidth.
    Bandwidth5Hz,
}

impl DlpfConfig {
    /// Bit pattern of this bandwidth in the configuration register.
    pub open spec fn reg_bits_spec(self) -> u8 {
        match self {
            DlpfConfig::Disabled => 0x00,
            DlpfConfig::Bandwidth188Hz => 0x01,
            DlpfConfig::Bandwidth98Hz => 0x02,
            DlpfConfig::Bandwidth42Hz => 0x03,
            DlpfConfig::Bandwidth20Hz => 0x04,
            DlpfConfig::Bandwidth10Hz => 0x05,
            DlpfConfig::Bandwidth5Hz => 0x06,
        }
    }

    /// Bit pattern of this bandwidth.
    pub fn reg_bits(self) -> (r: u8)
        ensures
            r == self.reg_bits_spec(),
    {
        match self {
            DlpfConfig::Disabled => 0x00,
            DlpfConfig::Bandwidth188Hz => 0x01,
            DlpfConfig::Bandwidth98Hz => 0x02,
            DlpfConfig::Bandwidth42Hz => 0x03,
            DlpfConfig::Bandwidth20Hz => 0x04,
            DlpfConfig::Bandwidth10Hz => 0x05,
            DlpfConfig::Bandwidth5Hz => 0x06,
        }
    }
}

} // verus!
