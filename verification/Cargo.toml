[package]
name = "stream_bridge"
version = "0.1.0"
edition = "2021"
publish = false

[dependencies]
tokio = { version = "1", features = ["sync", "rt", "macros", "rt-multi-thread"] }
futures-util = "0.3"
log = "0.4"
parking_lot = "0.12"
