[package]
name = "codex_mcp"
version = "0.1.0"
edition = "2021"
publish = false

[dependencies]
serde_json = "*"
serde = { version = "*", features = ["derive"] }
rmcp = { version = "*", features = ["server", "transport-io"] }
schemars = "*"
tokio = { version = "*", features = ["full"] }
anyhow = "*"
thiserror = "*"
tracing = "*"
tracing-subscriber = { version = "*", features = ["env-filter"] }
which = "*"
