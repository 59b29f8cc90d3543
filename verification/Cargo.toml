[package]
name = "host_telemetry"
version = "0.1.0"
edition = "2021"
publish = false

[dependencies]
rocket = { version = "=0.5.1", features = ["json"] }
sysinfo = "=0.29.11"
