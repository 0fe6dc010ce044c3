[package]
name = "anland"
version = "0.1.0"
edition = "2021"
publish = false

[dependencies]
rustix = { version = "*", features = ["time"] }
smithay = { version = "*", default-features = false }
