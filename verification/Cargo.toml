[package]
name = "makeacat"
version = "0.1.0"
edition = "2021"
publish = false

[dependencies]
rand = "0.8"
png = "0.17"
chrono = "0.4"
raqote = "0.8"
font-kit = "0.14"
axum = "0.7"
tokio = { version = "1", features = ["full"] }
log = "0.4"
env_logger = "0.11"
anyhow = "1"
