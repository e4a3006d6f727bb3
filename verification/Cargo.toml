[package]
name = "koharu"
version = "0.1.0"
edition = "2021"
publish = false

[dependencies]
anyhow = "1"
axum = "0.8"
rmcp = { version = "*", features = ["server", "transport-streamable-http-server"] }
serde = { version = "1", features = ["derive"] }
serde_json = "1"
specta = "*"
tempfile = "3"
tokio = { version = "1", features = ["net", "rt", "macros"] }
tracing = "0.1"
uuid = { version = "1", features = ["v4"] }
