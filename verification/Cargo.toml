[package]
name = "weasel"
version = "0.1.0"
edition = "2021"
publish = false

[dependencies]
serde_json = "1"
tokio = { version = "1", features = ["io-std", "io-util", "macros", "rt", "sync", "time"] }
tracing = "0.1"
tracing-subscriber = "0.3"
wasmparser = "*"
windows-strings = "*"
windows-version = "*"
