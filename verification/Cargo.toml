[package]
name = "gateway_mock"
version = "0.1.0"
edition = "2021"
publish = false

[dependencies]
futures-util = "0.3"
libc = "0.2"
rand = "0.8"
serde = { version = "1", features = ["derive"] }
simd-json = "0.13"
tokio = { version = "1", features = ["macros", "net", "rt-multi-thread", "sync", "time"] }
tokio-tungstenite = "0.20"
tracing = "0.1"
tracing-subscriber = "0.3"
twilight-model = "0.15"
