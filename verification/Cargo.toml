[package]
name = "pubsub_core"
version = "0.1.0"
edition = "2021"
publish = false

[dependencies]
rdkafka = "*"
tokio = { version = "*", features = ["rt-multi-thread"] }
async-channel = "*"
