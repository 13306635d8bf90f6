[package]
name = "remote_settings"
version = "0.1.0"
edition = "2021"
publish = false

[dependencies]
rusqlite = { version = "*", features = ["bundled"] }
parking_lot = "*"
thiserror = "*"
url = "*"
