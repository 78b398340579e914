[package]
name = "linux_embedded_hal"
version = "0.1.0"
edition = "2021"
publish = false

[dependencies]
embedded-hal = "1"
embedded-hal-async = "1"
embedded-hal-nb = "1"
gpiocdev = { version = "0.7", features = ["async_tokio"] }
i2cdev = "0.6"
nb = "1"
nix = "0.27"
serialport = { version = "4", default-features = false }
spidev = "0.6"
sysfs_gpio = "0.6"
tokio = { version = "1", features = ["time"] }
