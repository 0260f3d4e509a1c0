[package]
name = "ascolt"
version = "0.1.0"
edition = "2021"
publish = false

[dependencies]
async-channel = "=2.5.0"
oneshot = { version = "=0.2.1", features = ["std"] }
tokio = { version = "=1.53.2", features = ["rt-multi-thread", "time"] }
