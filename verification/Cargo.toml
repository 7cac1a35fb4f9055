[package]
name = "possum"
version = "0.1.0"
edition = "2021"
publish = false

[dependencies]
clap = { version = "4", features = ["derive", "env"] }
futures = "0.3"
glob = "0.3"
indicatif = "0.17"
reqwest = { version = "0.12", features = ["stream"] }
serde_json = "1"
tokio = { version = "1", features = ["full"] }
tracing = "0.1"
tracing-subscriber = "0.3"
