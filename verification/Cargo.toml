[package]
name = "salsa20"
version = "0.1.0"
edition = "2021"
publish = false

[dependencies]
cipher = { version = "=0.5.2", features = ["stream-wrapper"] }
