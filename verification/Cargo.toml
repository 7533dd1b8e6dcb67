[package]
name = "agent_runtime"
version = "0.1.0"
edition = "2021"
publish = false

[dependencies]
globset = "*"
sha2 = "*"
uuid = { version = "*", features = ["v4"] }
serde = { version = "*", features = ["derive"] }
serde_json = "*"
serde_yaml = "*"
thiserror = "*"
tokio = { version = "*", features = ["full"] }
tokio-util = { version = "*", features = ["codec"] }
futures = "*"
async-trait = "*"
rusqlite = { version = "*", features = ["bundled"] }
tracing = "*"
tracing-subscriber = "*"
clap = { version = "*", features = ["derive"] }
