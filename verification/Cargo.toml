[package]
name = "mpu6050_core"
version = "0.1.0"
edition = "2021"
publish = false

[dependencies]
embassy-time = "*"
embedded-hal = "*"
embedded-hal-async = "*"
libm = "*"

[dev-dependencies]
fixed = "*"
