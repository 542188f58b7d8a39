[package]
name = "tokio_splice2"
version = "0.3.0"
edition = "2021"
publish = false

[dependencies]
crossbeam-utils = "0.8"
parking_lot = "0.12"
pin-project = "1"
rustix = { version = "1", features = ["pipe", "fs", "net"] }
tokio = { version = "1", features = ["fs", "io-util", "macros", "net", "rt", "rt-multi-thread", "signal", "sync", "time"] }
