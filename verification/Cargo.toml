[package]
name = "humthreads"
version = "0.1.0"
edition = "2021"
publish = false

[dependencies]
crossbeam-channel = "*"
serde = { version = "*", features = ["derive"] }

[dev-dependencies]
crossbeam-utils = "*"
