[package]
name = "callisto_engines"
version = "0.1.0"
edition = "2021"
publish = false

[dependencies]
anyhow = "1"
async-trait = "0.1"
clap = { version = "4", features = ["derive"] }
futures = "0.3"
pin-project = "1"
ratatui = "0.27"
serde = { version = "1", features = ["derive"] }
serde_json = "1"
sqlparser = { version = "=0.44.0", features = ["visitor"] }
tokio = { version = "1", features = ["rt-multi-thread", "macros", "io-util", "io-std", "sync"] }
tokio-stream = "0.1"
tokio-util = { version = "0.7", features = ["io", "io-util"] }
