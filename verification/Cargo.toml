[package]
name = "mcp_auth"
version = "0.1.0"
edition = "2021"
publish = false

[dependencies]
anyhow = "1"
async-trait = "0.1"
axum = "0.8"
chrono = "=0.4.45"
config = { version = "0.14", default-features = false, features = ["toml"] }
rand = "=0.9.5"
redis = { version = "=1.8.0", features = ["tokio-comp"] }
reqwest = { version = "0.12", default-features = false, features = ["json"] }
rmcp = { version = "=0.3.2", features = ["server", "macros", "transport-io", "transport-worker", "transport-streamable-http-server"] }
serde = { version = "1", features = ["derive"] }
serde_json = "1"
sqlx = { version = "0.8", default-features = false, features = ["sqlite", "runtime-tokio"] }
thiserror = "1"
tokio = { version = "1", features = ["macros", "rt-multi-thread", "signal", "net", "io-std"] }
tower = { version = "0.5", features = ["util"] }
tracing = "0.1"
tracing-appender = "0.2"
tracing-subscriber = { version = "0.3", features = ["env-filter", "json"] }
uuid = "=1.29.0"
zeroize = "=1.9.1"
