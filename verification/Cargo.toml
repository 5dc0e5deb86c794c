[package]
name = "dokimi_assert"
version = "0.1.0"
edition = "2021"
publish = false

[dependencies]
regex = "1"
tokio = { version = "1", features = ["rt", "rt-multi-thread", "time"] }
tokio-util = "0.7"
