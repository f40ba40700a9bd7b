[package]
name = "motor_driver_hal"
version = "0.1.0"
edition = "2021"
publish = false

[dependencies]
embedded-hal = "1.0"
linux-embedded-hal = "0.4"
