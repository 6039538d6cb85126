//! Validating configuration builder with preset profiles.
//!
//! Unlike the plain builder, this one clamps the sample rate into the
//! device's 4 to 1000 hertz window as it is set, exposes the FIFO and
//! low-power switches, and checks the validation rules on `build`.

use vstd::prelude::*;

use super::DlpfConfig;
use super::clock::ClockSource;
use super::config_struct::Mpu6050Config;
use super::scale::{AccelScale, GyroScale};
use crate::error::{ConfigValidation, Mpu6050Error};

verus! {

impl ConfigValidation for Mpu6050Config {
    open spec fn valid_spec(&self) -> bool {
        self.valid_config_spec()
    }

    fn validate(&self) -> (r: Result<(), Mpu6050Error<()>>) {
        if self.sample_rate < 4 || self.sample_rate > 1000 {
            Err(Mpu6050Error::InvalidConfig)
        } else if self.low_power_mode && self.sample_rate > 100 {
            Err(Mpu6050Error::InvalidConfig)
        } else {
            Ok(())
        }
    }
}

/// Chained builder over the full configuration, including the FIFO and
/// low-power switches; `build` validates, `build_unchecked` does not.
#[derive(Debug, Clone, PartialEq, Eq, Structural)]
pub struct ConfigBuilder {
    accel_scale: AccelScale,
    gyro_scale: GyroScale,
    dlpf_config: DlpfConfig,
    sample_rate: u16,
    clock_source: ClockSource,
    enable_interrupts: bool,
    enable_fifo: bool,
    low_power_mode: bool,
}

impl ConfigBuilder {
    /// The configuration this builder holds.
    pub closed spec fn config_spec(self) -> Mpu6050Config {
        Mpu6050Config {
            accel_scale: self.accel_scale,
            gyro_scale: self.gyro_scale,
            dlpf_config: self.dlpf_config,
            sample_rate: self.sample_rate,
            clock_source: self.clock_source,
            enable_interrupts: self.enable_interrupts,
            enable_fifo: self.enable_fifo,
            low_power_mode: self.low_power_mode,
        }
    }

    /// A builder holding the default configuration.
    pub fn new() -> (r: Self)
        ensures
            r.config_spec() == Mpu6050Config::default_spec(),
    {
        ConfigBuilder {
            accel_scale: AccelScale::Scale2G,
            gyro_scale: GyroScale::Scale250,
            dlpf_config: DlpfConfig::Bandwidth42Hz,
            sample_rate: 1000,
            clock_source: ClockSource::Internal,
            enable_interrupts: false,
            enable_fifo: false,
            low_power_mode: false,
        }
    }

    /// Sets the accelerometer full-scale range.
    pub fn accel_scale(self, scale: AccelScale) -> (r: Self)
        ensures
            r.config_spec() == (Mpu6050Config { accel_scale: scale, ..self.config_spec() }),
    {
        ConfigBuilder { accel_scale: scale, ..self }
    }

    /// Sets the gyroscope full-scale range.
    pub fn gyro_scale(self, scale: GyroScale) -> (r: Self)
        ensures
            r.config_spec() == (Mpu6050Config { gyro_scale: scale, ..self.config_spec() }),
    {
        ConfigBuilder { gyro_scale: scale, ..self }
    }

    /// Sets the digital low-pass filter.
    pub fn dlpf_config(self, config: DlpfConfig) -> (r: Self)
        ensures
            r.config_spec() == (Mpu6050Config { dlpf_config: config, ..self.config_spec() }),
    {
        ConfigBuilder { dlpf_config: config, ..self }
    }

    /// Sets the sample rate in hertz, as requested.  A rate outside
    /// the 4 to 1000 hertz window the device supports is kept and
    /// rejected by `build`; the divider computation clamps on its own.
    pub fn sample_rate(self, rate: u16) -> (r: Self)
        ensures
            r.config_spec() == (Mpu6050Config { sample_rate: rate, ..self.config_spec() }),
    {
        ConfigBuilder { sample_rate: rate, ..self }
    }

    /// Sets the clock source.
    pub fn clock_source(self, source: ClockSource) -> (r: Self)
        ensures
            r.config_spec() == (Mpu6050Config { clock_source: source, ..self.config_spec() }),
    {
        ConfigBuilder { clock_source: source, ..self }
    }

    /// Switches interrupts on or off.
    pub fn enable_interrupts(self, enable: bool) -> (r: Self)
        ensures
            r.config_spec() == (Mpu6050Config {
                enable_interrupts: enable,
                ..self.config_spec()
            }),
    {
        ConfigBuilder { enable_interrupts: enable, ..self }
    }

    /// Switches the FIFO on or off.
    pub fn enable_fifo(self, enable: bool) -> (r: Self)
        ensures
            r.config_spec() == (Mpu6050Config { enable_fifo: enable, ..self.config_spec() }),
    {
        ConfigBuilder { enable_fifo: enable, ..self }
    }

    /// Switches low-power mode on or off.
    pub fn low_power_mode(self, enable: bool) -> (r: Self)
        ensures
            r.config_spec() == (Mpu6050Config {
                low_power_mode: enable,
                ..self.config_spec()
            }),
    {
        ConfigBuilder { low_power_mode: enable, ..self }
    }

    /// Builds and validates: the configuration as set when it obeys the
    /// validation rules, and `InvalidConfig` otherwise.
    pub fn build(self) -> (r: Result<Mpu6050Config, Mpu6050Error<()>>)
        ensures
            self.config_spec().valid_config_spec() ==> r == Result::<
                Mpu6050Config,
                Mpu6050Error<()>,
            >::Ok(self.config_spec()),
            !self.config_spec().valid_config_spec() ==> r == Result::<
                Mpu6050Config,
                Mpu6050Error<()>,
            >::Err(Mpu6050Error::InvalidConfig),
    {
        let config = self.build_unchecked();
        match config.validate() {
            Ok(()) => Ok(config),
            Err(_) => Err(Mpu6050Error::InvalidConfig),
        }
    }

    /// Builds the configuration as set, without validation.
    pub fn build_unchecked(self) -> (r: Mpu6050Config)
        ensures
            r == self.config_spec(),
    {
        Mpu6050Config {
            accel_scale: self.accel_scale,
            gyro_scale: self.gyro_scale,
            dlpf_config: self.dlpf_config,
            sample_rate: self.sample_rate,
            clock_source: self.clock_source,
            enable_interrupts: self.enable_interrupts,
            enable_fifo: self.enable_fifo,
            low_power_mode: self.low_power_mode,
        }
    }
}

impl Default for ConfigBuilder {
    /// Same as `new`.
    fn default() -> (r: Self)
        ensures
            r.config_spec() == Mpu6050Config::default_spec(),
    {
        ConfigBuilder::new()
    }
}

impl ConfigBuilder {
    /// High-precision profile: lowest ranges, 5 Hz filtering, 100 Hz
    /// sampling.
    pub fn high_precision() -> (r: Self)
        ensures
            r.config_spec() == (Mpu6050Config {
                dlpf_config: DlpfConfig::Bandwidth5Hz,
                sample_rate: 100u16,
                ..Mpu6050Config::default_spec()
            }),
    {
        ConfigBuilder::new().accel_scale(AccelScale::Scale2G).gyro_scale(
            GyroScale::Scale250,
        ).dlpf_config(DlpfConfig::Bandwidth5Hz).sample_rate(100)
    }

    /// High-speed profile: doubled ranges, 42 Hz filtering, 1000 Hz
    /// sampling.
    pub fn high_speed() -> (r: Self)
        ensures
            r.config_spec() == (Mpu6050Config {
                accel_scale: AccelScale::Scale4G,
                gyro_scale: GyroScale::Scale500,
                ..Mpu6050Config::default_spec()
            }),
    {
        ConfigBuilder::new().accel_scale(AccelScale::Scale4G).gyro_scale(
            GyroScale::Scale500,
        ).dlpf_config(DlpfConfig::Bandwidth42Hz).sample_rate(1000)
    }

    /// Low-power profile: lowest ranges, 20 Hz filtering, 50 Hz
    /// sampling, low-power mode on.
    pub fn low_power() -> (r: Self)
        ensures
            r.config_spec() == (Mpu6050Config {
                dlpf_config: DlpfConfig::Bandwidth20Hz,
                sample_rate: 50u16,
                low_power_mode: true,
                ..Mpu6050Config::default_spec()
            }),
    {
        ConfigBuilder::new().accel_scale(AccelScale::Scale2G).gyro_scale(
            GyroScale::Scale250,
        ).dlpf_config(DlpfConfig::Bandwidth20Hz).sample_rate(50).low_power_mode(true)
    }

    /// Motion-detection profile: wide ranges, 42 Hz filtering, 200 Hz
    /// sampling, interrupts on.
    pub fn motion_detection() -> (r: Self)
        ensures
            r.config_spec() == (Mpu6050Config {
                accel_scale: AccelScale::Scale8G,
                gyro_scale: GyroScale::Scale1000,
                sample_rate: 200u16,
                enable_interrupts: true,
                ..Mpu6050Config::default_spec()
            }),
    {
        ConfigBuilder::new().accel_scale(AccelScale::Scale8G).gyro_scale(
            GyroScale::Scale1000,
        ).dlpf_config(DlpfConfig::Bandwidth42Hz).sample_rate(200).enable_interrupts(true)
    }

    /// Attitude-estimation profile: doubled ranges, 20 Hz filtering,
    /// 200 Hz sampling.
    pub fn attitude_estimation() -> (r: Self)
        ensures
            r.config_spec() == (Mpu6050Config {
                accel_scale: AccelScale::Scale4G,
                gyro_scale: GyroScale::Scale500,
                dlpf_config: DlpfConfig::Bandwidth20Hz,
                sample_rate: 200u16,
                ..Mpu6050Config::default_spec()
            }),
    {
        ConfigBuilder::new().accel_scale(AccelScale::Scale4G).gyro_scale(
            GyroScale::Scale500,
        ).dlpf_config(DlpfConfig::Bandwidth20Hz).sample_rate(200)
    }
}

} // verus!
