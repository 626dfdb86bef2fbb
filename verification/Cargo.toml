[package]
name = "stock_operator"
version = "0.1.0"
edition = "2021"
publish = false

[dependencies]
serde = { version = "1", features = ["derive"] }
serde_json = "1"
sha2 = "0.10"
url = "2"
anyhow = "1"
thiserror = "2"
chrono = "0.4"
uuid = { version = "1", features = ["v4"] }
clap = { version = "4", features = ["derive"] }
rusqlite = { version = "0.32", features = ["bundled"] }
tokio = { version = "1", features = ["full"] }
axum = "0.8"
tracing = "0.1"
tracing-subscriber = "0.3"
schemars = "1"
utoipa = "5"
keyring = "3"
reqwest = { version = "0.12", default-features = false, features = ["json"] }
rmcp = { version = "*", features = ["server", "macros", "transport-streamable-http-server"] }
