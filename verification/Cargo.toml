[package]
name = "govee_ble"
version = "0.1.0"
edition = "2021"
publish = false

[dependencies]
anyhow = "1"
async-trait = "0.1"
data-encoding = "2"
mosquitto-rs = "*"
once_cell = "1"
parking_lot = "0.12"
serde = { version = "1", features = ["derive"] }
