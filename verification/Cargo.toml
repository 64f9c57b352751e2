[package]
name = "sensor_domain"
version = "0.1.0"
edition = "2021"
publish = false

[dependencies]
anyhow = "1"
async-trait = "0.1"
axum = "*"
chrono = { version = "0.4", features = ["serde"] }
futures = "0.3"
mongodb = "*"
serde = { version = "1", features = ["derive"] }
tokio = { version = "1", features = ["full"] }
