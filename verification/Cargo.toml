[package]
name = "agent_tree"
version = "0.1.0"
edition = "2021"
publish = false

[dependencies]
anyhow = "1"
async-trait = "0.1"
serde = { version = "1", features = ["derive"] }
serde_json = "1"
tokio = { version = "1", features = ["io-std", "io-util", "macros", "process", "rt", "sync", "time"] }
tokio-util = "0.7"
uuid = { version = "1", features = ["v4"] }
