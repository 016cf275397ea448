[package]
name = "inspect_timeout"
version = "0.1.0"
edition = "2021"
publish = false

[dependencies]
pin-project = "1"
tokio = { version = "1", default-features = false, features = ["time"] }
