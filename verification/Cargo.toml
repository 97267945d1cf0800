[package]
name = "netstack"
version = "0.1.0"
edition = "2021"
publish = false

[dependencies]
lazy_static = "=1.5.1"
log = "=0.4.35"
parking_lot = "=0.12.5"
tokio = { version = "=1.54.1", features = ["rt", "sync", "time"] }
