[package]
name = "tradesnap"
version = "0.2.2"
edition = "2021"
publish = false

[dependencies]
anyhow = "*"
axum = "*"
dotenvy = "*"
headless_chrome = "*"
regex = "*"
serde = { version = "*", features = ["derive"] }
serde_json = "*"
thiserror = "*"
tokio = { version = "*", features = ["full"] }
tracing = "*"
tracing-subscriber = { version = "*", features = ["env-filter"] }
