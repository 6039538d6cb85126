//! The device configuration record and its plain builder.
//!
//! This builder is the original, unvalidated entry point; the richer
//! builder with validation and presets lives in the sibling module.

use vstd::prelude::*;

use super::DlpfConfig;
use super::clock::ClockSource;
use super::scale::{AccelScale, GyroScale};

verus! {

/// Immutable record of the device configuration: full-scale ranges,
/// filtering, sampling, clocking and feature switches.
#[derive(Debug, Clone, PartialEq, Eq, Structural)]
pub struct Mpu6050Config {
    /// Accelerometer full-scale range.
    pub accel_scale: AccelScale,
    /// Gyroscope full-scale range.
    pub gyro_scale: GyroScale,
    /// Digital low-pass filter setting.
    pub dlpf_config: DlpfConfig,
    /// Desired sample rate in hertz.
    pub sample_rate: u16,
    /// Clock source of the device.
    pub clock_source: ClockSource,
    /// Whether interrupts are enabled.
    pub enable_interrupts: bool,
    /// Whether the FIFO is enabled.
    pub enable_fifo: bool,
    /// Whether low-power mode is requested.
    pub low_power_mode: bool,
}

impl Mpu6050Config {
    /// The validation rules of a configuration: the sample rate lies in
    /// 4 to 1000 hertz, and low-power mode is not combined with a rate
    /// above 100 hertz.
    pub open spec fn valid_config_spec(self) -> bool {
        4 <= self.sample_rate <= 1000 && !(self.low_power_mode && self.sample_rate > 100)
    }

    /// The configuration every builder starts from.
    pub open spec fn default_spec() -> Mpu6050Config {
        Mpu6050Config {
            accel_scale: AccelScale::Scale2G,
            gyro_scale: GyroScale::Scale250,
            dlpf_config: DlpfConfig::Bandwidth42Hz,
            sample_rate: 1000,
            clock_source: ClockSource::Internal,
            enable_interrupts: false,
            enable_fifo: false,
            low_power_mode: false,
        }
    }

    /// Builds the configuration a builder holds, without validation.
    pub fn new(builder: ConfigBuilder) -> (r: Self)
        ensures
            r == builder.config_spec(),
    {
        builder.build()
    }
}

impl Default for Mpu6050Config {
    /// The default configuration: lowest ranges, 42 Hz filtering,
    /// 1000 Hz sampling, internal clock, every feature off.
    fn default() -> (r: Self)
        ensures
            r == Mpu6050Config::default_spec(),
    {
        Mpu6050Config {
            accel_scale: AccelScale::Scale2G,
            gyro_scale: GyroScale::Scale250,
            dlpf_config: DlpfConfig::Bandwidth42Hz,
            sample_rate: 1000,
            clock_source: ClockSource::Internal,
            enable_interrupts: false,
            enable_fifo: false,
            low_power_mode: false,
        }
    }
}

/// Chained builder over the plain configuration fields.  It performs no
/// validation; `build` hands out exactly what was set.
#[derive(Debug, Clone, PartialEq, Eq, Structural)]
pub struct ConfigBuilder {
    accel_scale: AccelScale,
    gyro_scale: GyroScale,
    dlpf_config: DlpfConfig,
    sample_rate: u16,
    clock_source: ClockSource,
    enable_interrupts: bool,
}

impl ConfigBuilder {
    /// The configuration this builder would produce: its fields, with
    /// the FIFO and low-power switches off.
    pub closed spec fn config_spec(self) -> Mpu6050Config {
        Mpu6050Config {
            accel_scale: self.accel_scale,
            gyro_scale: self.gyro_scale,
            dlpf_config: self.dlpf_config,
            sample_rate: self.sample_rate,
            clock_source: self.clock_source,
            enable_interrupts: self.enable_interrupts,
            enable_fifo: false,
            low_power_mode: false,
        }
    }

    /// A builder holding the default configuration.
    pub fn new() -> (r: Self)
        ensures
            r.config_spec() == Mpu6050Config::default_spec(),
    {
        ConfigBuilder {
            accel_scale: AccelScale::Scale2G,
            gyro_scale: GyroScale::Scale250,
            dlpf_config: DlpfConfig::Bandwidth42Hz,
            sample_rate: 1000,
            clock_source: ClockSource::Internal,
            enable_interrupts: false,
        }
    }

    /// Sets the accelerometer full-scale range.
    pub fn accel_scale(self, accel_scale: AccelScale) -> (r: Self)
        ensures
            r.config_spec() == (Mpu6050Config { accel_scale, ..self.config_spec() }),
    {
        ConfigBuilder { accel_scale, ..self }
    }

    /// Sets the gyroscope full-scale range.
    pub fn gyro_scale(self, gyro_scale: GyroScale) -> (r: Self)
        ensures
            r.config_spec() == (Mpu6050Config { gyro_scale, ..self.config_spec() }),
    {
        ConfigBuilder { gyro_scale, ..self }
    }

    /// Sets the digital low-pass filter.
    pub fn dlpf_config(self, dlpf_config: DlpfConfig) -> (r: Self)
        ensures
            r.config_spec() == (Mpu6050Config { dlpf_config, ..self.config_spec() }),
    {
        ConfigBuilder { dlpf_config, ..self }
    }

    /// Sets the sample rate in hertz, as given.
    pub fn sample_rate(self, sample_rate: u16) -> (r: Self)
        ensures
            r.config_spec() == (Mpu6050Config { sample_rate, ..self.config_spec() }),
    {
        ConfigBuilder { sample_rate, ..self }
    }

    /// Sets the clock source.
    pub fn clock_source(self, clock_source: ClockSource) -> (r: Self)
        ensures
            r.config_spec() == (Mpu6050Config { clock_source, ..self.config_spec() }),
    {
        ConfigBuilder { clock_source, ..self }
    }

    /// Switches interrupts on or off.
    pub fn enable_interrupts(self, enable_interrupts: bool) -> (r: Self)
        ensures
            r.config_spec() == (Mpu6050Config { enable_interrupts, ..self.config_spec() }),
    {
        ConfigBuilder { enable_interrupts, ..self }
    }

    /// Hands out the configuration as set, unvalidated.
    pub fn build(self) -> (r: Mpu6050Config)
        ensures
            r == self.config_spec(),
    {
        Mpu6050Config {
            accel_scale: self.accel_scale,
            gyro_scale: self.gyro_scale,
            dlpf_config: self.dlpf_config,
            sample_rate: self.sample_rate,
            clock_source: self.clock_source,
            enable_interrupts: self.enable_interrupts,
            enable_fifo: false,
            low_power_mode: false,
        }
    }
}

impl Default for ConfigBuilder {
    /// Same as `new`.
    fn default() -> (r: Self)
        ensures
            r.config_spec() == Mpu6050Config::default_spec(),
    {
        ConfigBuilder::new()
    }
}

/// Divider to program so the device's 1 kHz base rate approximates the
/// desired rate: the rate is `1000 / (1 + divider)`.  Rates at or above
/// 1000 Hz get divider 0; rates at or below 1 Hz get the largest
/// divider; in between, the exact quotient, reduced modulo 256 the way
/// an 8-bit register truncates.
pub fn calculate_sample_rate_divider(desired_rate: u16) -> (r: u8)
    ensures
        desired_rate >= 1000 ==> r == 0,
        desired_rate <= 1 ==> r == 255,
        1 < desired_rate < 1000 ==> r as int == (1000int / desired_rate as int - 1) % 256,
{
    if desired_rate >= 1000 {
        0
    } else if desired_rate <= 1 {
        255
    } else {
        proof {
            vstd::arithmetic::div_mod::lemma_div_non_zero(1000, desired_rate as int);
        }
        let v: u16 = (1000u16 / desired_rate) - 1;
        proof {
            assert((v as u8) as u16 == v % 256) by (bit_vector);
        }
        #[verifier::truncate]
        (v as u8)
    }
}

} // verus!
