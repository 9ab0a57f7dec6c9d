[package]
name = "aruaru_pro"
version = "0.1.0"
edition = "2021"
publish = false

[dependencies]
anyhow = "=1.0.104"
async-stripe = "=0.41.0"
getrandom = "=0.2.17"
http-body-util = "=0.1.5"
hyper = "=1.12.0"
reqwest = { version = "=0.12.28", features = ["json"] }
serde = { version = "=1.0.229", features = ["derive"] }
serde_json = "=1.0.154"
sha2 = "=0.10.9"
tokio = { version = "=1.54.1", features = ["full"] }
tokio-postgres = "=0.7.18"
tracing = "=0.1.44"
tracing-subscriber = "=0.3.23"
