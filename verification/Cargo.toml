[package]
name = "btest-rs"
version = "0.1.0"
edition = "2021"
publish = false

[dependencies]
byteorder = "1"
clap = { version = "4", features = ["derive"] }
tokio = { version = "1", features = ["io-util", "macros", "net", "rt-multi-thread", "sync", "time"] }
tracing = "0.1"
tracing-subscriber = { version = "0.3", features = ["env-filter"] }
