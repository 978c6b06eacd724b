[package]
name = "ydlidar_driver"
version = "0.1.0"
edition = "2021"
publish = false

[dependencies]
crossbeam-channel = "0.5"
serde = { version = "1", features = ["derive"] }
serialport = { version = "4", default-features = false }
