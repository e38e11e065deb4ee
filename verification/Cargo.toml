[package]
name = "shy-notes"
version = "0.1.0"
edition = "2021"
publish = false

[dependencies]
chrono = "=0.4.45"
uuid = { version = "=1.29.0", features = ["v4"] }
getrandom = "=0.4.3"
serde = { version = "=1.0.229", features = ["derive"] }
serde_json = "=1.0.154"
dirs = "=6.0.0"
parking_lot = "=0.12.5"
device_query = "=4.0.1"
macos-accessibility-client = "=0.0.2"
