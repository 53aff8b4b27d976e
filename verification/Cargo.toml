[package]
name = "web_api"
version = "0.1.0"
edition = "2021"
publish = false

[dependencies]
argon2 = "=0.6.0"
jsonwebtoken = { version = "=11.1.0", features = ["rust_crypto"] }
chrono = { version = "=0.4.45", features = ["serde"] }
uuid25 = { version = "=0.3.5", features = ["gen"] }
validator = "=0.21.0"
serde = { version = "=1.0.229", features = ["derive"] }
serde_json = { version = "=1.0.154", features = ["preserve_order"] }
serde_yaml = "=0.9.34"
argh = "=0.1.19"
fjall = "=3.1.13"
tokio = { version = "=1.54.1", features = ["full"] }
axum = "=0.8.9"
axum-extra = { version = "=0.12.6", features = ["typed-header"] }
tower-http = { version = "=0.7.1", features = ["cors", "fs"] }
tracing = "=0.1.44"
tracing-subscriber = { version = "=0.3.23", features = ["env-filter"] }
