[package]
name = "safe_once"
version = "0.1.0"
edition = "2021"
publish = false

[dependencies]
atomic = "*"
tokio = { version = "*", default-features = false, features = ["sync", "rt"] }
parking_lot = "*"
parking_lot_core = "*"
futures = "*"
