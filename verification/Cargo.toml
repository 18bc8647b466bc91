[package]
name = "uac1"
version = "0.1.0"
edition = "2021"
publish = false

[dependencies]
embassy-sync = "0.7"
heapless = "0.8"

[dev-dependencies]
critical-section = { version = "1.1", features = ["std"] }
