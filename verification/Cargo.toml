[package]
name = "chat_analytics"
version = "0.1.0"
edition = "2021"
publish = false

[dependencies]
anyhow = "1"
axum = { version = "0.7", features = ["http2", "query", "tracing", "multipart"] }
chrono = { version = "0.4", features = ["serde"] }
clickhouse = { version = "0.12", default-features = false }
futures-util = "0.3"
prost = "0.13"
serde = { version = "1", features = ["derive"] }
serde_json = "1"
serde_yaml = "0.9"
tokio = { version = "1", features = ["full"] }
tower-http = { version = "0.5", features = ["cors", "trace"] }
tracing = "0.1"
utoipa = "4"
uuid = { version = "1", features = ["v7", "serde"] }
