[package]
name = "battery_status"
version = "0.1.0"
edition = "2021"
publish = false

[dependencies]
anyhow = "=1.0.104"
once_cell = "=1.21.4"
zbus = "=5.19.0"
