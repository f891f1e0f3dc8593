[package]
name = "joltamp"
version = "0.1.0"
edition = "2021"
publish = false

[dependencies]
anyhow = "=1.0.104"
argon2 = { version = "=0.5.3", features = ["std"] }
axum = "=0.8.9"
chrono = "=0.4.45"
scylla = "=1.9.0"
serde = { version = "=1.0.229", features = ["derive"] }
tokio = { version = "=1.53.2", features = ["full"] }
tracing-subscriber = "=0.3.23"
uuid = { version = "=1.27.0", features = ["v4", "serde"] }
