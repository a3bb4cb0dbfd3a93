[package]
name = "codex_acp"
version = "0.1.0"
edition = "2021"
publish = false

[dependencies]
agent-client-protocol = "<0.2"
anyhow = "1"
serde_json = "1"
shlex = "=1.3.0"
tokio = { version = "1", features = ["io-std", "rt"] }
tokio-util = { version = "0.7", features = ["compat"] }
toml = "0.9"
tracing-subscriber = { version = "0.3", features = ["env-filter", "fmt"] }
uuid = "=1.29.0"
