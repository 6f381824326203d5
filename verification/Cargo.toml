[package]
name = "stream_harness"
version = "0.1.0"
edition = "2021"
publish = false

[dependencies]
iggy = "=0.0.124"
tokio = { version = "1", features = ["full"] }
tracing = "0.1"
tracing-subscriber = "0.3"
