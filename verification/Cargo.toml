[package]
name = "threadpool"
version = "0.1.0"
edition = "2021"
publish = false

[dependencies]
oneshot = { version = "*", default-features = false, features = ["std"] }
parking_lot = "0.12"
