[package]
name = "rockdove"
version = "0.1.0"
edition = "2021"
publish = false

[dependencies]
catppuccin = "=2.8.0"
anyhow = "=1.0.104"
axum = "=0.8.9"
axum-github-webhook-extract = "=0.3.0"
envy = "=0.4.2"
octocrab = "=0.41.2"
reqwest = { version = "=0.12.28", default-features = false, features = ["json", "rustls-tls"] }
serde = { version = "=1.0.229", features = ["derive"] }
serde_json = "=1.0.151"
tokio = { version = "=1.53.2", features = ["full"] }
tower-http = { version = "=0.7.1", features = ["trace"] }
tracing = "=0.1.44"
tracing-subscriber = "=0.3.23"
