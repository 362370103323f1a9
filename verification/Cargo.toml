[package]
name = "io_urine"
version = "0.1.0"
edition = "2021"
publish = false

[dependencies]
rustix = { version = "=0.38.44", features = ["io_uring", "mm", "fs", "event"] }
