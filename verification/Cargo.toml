[package]
name = "console_aggregator"
version = "0.1.0"
edition = "2021"
publish = false

[dependencies]
console-api = "0.1"
futures = { version = "0.3", default-features = false }
hdrhistogram = { version = "7", default-features = false, features = ["serialization"] }
tokio = { version = "1", features = ["sync", "time", "rt", "macros"] }
tracing = "0.1"
tracing-core = "0.1"
