[package]
name = "lease_relay"
version = "0.1.0"
edition = "2021"
publish = false

[dependencies]
axum = "0.6"
axum-client-ip = "0.3"
chrono = "0.4"
dotenv = "0.15"
serde = { version = "1", features = ["derive"] }
sqlx = { version = "0.6", features = ["runtime-tokio-rustls", "mysql", "chrono"] }
tokio = { version = "1", features = ["full"] }
tracing = "0.1"
tracing-subscriber = { version = "0.3", features = ["env-filter"] }
