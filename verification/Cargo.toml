[package]
name = "clickhouse_mcp"
version = "0.1.0"
edition = "2021"
publish = false

[dependencies]
anyhow = "*"
clickhouse = "*"
env_logger = "*"
log = "*"
serde = { version = "*", features = ["derive"] }
serde_json = "*"
thiserror = "*"
tokio = { version = "*", features = ["rt-multi-thread", "io-std", "io-util", "macros", "time"] }
