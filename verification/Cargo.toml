[package]
name = "livekit_ffi"
version = "0.1.0"
edition = "2021"
publish = false

[dependencies]
lazy_static = "1.4"
log = "0.4"
parking_lot = "0.12"
prost = "0.11"
tokio = { version = "1", features = ["rt-multi-thread"] }
