//! Configuration builders, validation rules, and presets.

use mpu6050_core::config::builder::ConfigBuilder;
use mpu6050_core::config::config_struct::ConfigBuilder as PlainConfigBuilder;
use mpu6050_core::config::{
    AccelScale, ClockSource, DlpfConfig, GyroScale, Mpu6050Config, calculate_sample_rate_divider,
};
use mpu6050_core::error::{ConfigValidation, Mpu6050Error};

#[test]
fn test_config_builder_default() {
    let config = ConfigBuilder::new().build_unchecked();
    assert_eq!(config.accel_scale, AccelScale::Scale2G);
    assert_eq!(config.gyro_scale, GyroScale::Scale250);
    assert_eq!(config.sample_rate, 1000);
}

#[test]
fn test_config_validation() {
    let config = ConfigBuilder::new().sample_rate(100).build();
    assert!(config.is_ok());

    let config = ConfigBuilder::new().sample_rate(2000).build();
    assert!(config.is_err());
}

#[test]
fn test_preset_configs() {
    let high_precision = ConfigBuilder::high_precision().build_unchecked();
    assert_eq!(high_precision.accel_scale, AccelScale::Scale2G);
    assert_eq!(high_precision.sample_rate, 100);

    let high_speed = ConfigBuilder::high_speed().build_unchecked();
    assert_eq!(high_speed.sample_rate, 1000);

    let low_power = ConfigBuilder::low_power().build_unchecked();
    assert!(low_power.low_power_mode);
}

#[test]
fn test_all_presets_validate() {
    assert!(ConfigBuilder::high_precision().build().is_ok());
    assert!(ConfigBuilder::high_speed().build().is_ok());
    assert!(ConfigBuilder::low_power().build().is_ok());
    assert!(ConfigBuilder::motion_detection().build().is_ok());
    assert!(ConfigBuilder::attitude_estimation().build().is_ok());
}

#[test]
fn test_validation_low_power_rate() {
    // Low-power mode combined with a rate above 100 Hz is rejected.
    let config = ConfigBuilder::new().sample_rate(200).low_power_mode(true).build();
    assert_eq!(config, Err(Mpu6050Error::InvalidConfig));

    let config = ConfigBuilder::new().sample_rate(100).low_power_mode(true).build();
    assert!(config.is_ok());

    // A rate below the window is rejected as well.
    let config = ConfigBuilder::new().sample_rate(2).build();
    assert_eq!(config, Err(Mpu6050Error::InvalidConfig));
}

#[test]
fn test_validate_trait() {
    let good = ConfigBuilder::new().sample_rate(500).build_unchecked();
    assert!(good.validate().is_ok());

    let bad = ConfigBuilder::new().sample_rate(1).build_unchecked();
    assert_eq!(bad.validate(), Err(Mpu6050Error::InvalidConfig));
}

#[test]
fn test_plain_builder_and_config_new() {
    let builder = PlainConfigBuilder::new()
        .accel_scale(AccelScale::Scale8G)
        .gyro_scale(GyroScale::Scale1000)
        .dlpf_config(DlpfConfig::Bandwidth98Hz)
        .sample_rate(250)
        .clock_source(ClockSource::PllGyroX)
        .enable_interrupts(true);
    let config = Mpu6050Config::new(builder);
    assert_eq!(config.accel_scale, AccelScale::Scale8G);
    assert_eq!(config.gyro_scale, GyroScale::Scale1000);
    assert_eq!(config.dlpf_config, DlpfConfig::Bandwidth98Hz);
    assert_eq!(config.sample_rate, 250);
    assert_eq!(config.clock_source, ClockSource::PllGyroX);
    assert!(config.enable_interrupts);
    assert!(!config.enable_fifo);
    assert!(!config.low_power_mode);
}

#[test]
fn test_sample_rate_divider() {
    // 1000 / (1 + divider) reaches the desired rate.
    assert_eq!(calculate_sample_rate_divider(1000), 0);
    assert_eq!(calculate_sample_rate_divider(2000), 0);
    assert_eq!(calculate_sample_rate_divider(100), 9);
    assert_eq!(calculate_sample_rate_divider(4), 249);
    assert_eq!(calculate_sample_rate_divider(1), 255);
    assert_eq!(calculate_sample_rate_divider(0), 255);
    // Below the valid window the 8-bit register truncates the quotient.
    assert_eq!(calculate_sample_rate_divider(2), 243);
}

#[test]
fn test_scale_tables() {
    assert_eq!(AccelScale::Scale2G.lsb_per_g(), 16384);
    assert_eq!(AccelScale::Scale4G.lsb_per_g(), 8192);
    assert_eq!(AccelScale::Scale8G.lsb_per_g(), 4096);
    assert_eq!(AccelScale::Scale16G.lsb_per_g(), 2048);
    assert_eq!(AccelScale::Scale16G.reg_bits(), 0x18);
    assert_eq!(GyroScale::Scale250.lsb_per_dps_x10(), 1310);
    assert_eq!(GyroScale::Scale500.lsb_per_dps_x10(), 655);
    assert_eq!(GyroScale::Scale1000.lsb_per_dps_x10(), 328);
    assert_eq!(GyroScale::Scale2000.lsb_per_dps_x10(), 164);
    assert_eq!(GyroScale::Scale500.reg_bits(), 0x08);
    assert_eq!(DlpfConfig::Bandwidth5Hz.reg_bits(), 0x06);
}
