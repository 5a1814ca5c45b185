[package]
name = "light_guide"
version = "0.1.0"
edition = "2021"
publish = false

[dependencies]
tokio = { version = "1", features = ["sync", "rt-multi-thread", "time", "net", "macros", "io-util"] }
dashmap = "*"
anyhow = "*"
clap = { version = "4", features = ["derive"] }
axum = "*"
tokio-tungstenite = "*"
tokio-stream = { version = "*", features = ["sync"] }
futures-util = "*"
sysinfo = "*"
get_if_addrs = "*"
tracing = "*"
tracing-subscriber = "*"
