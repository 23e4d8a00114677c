[package]
name = "nebula_idempotency"
version = "0.1.0"
edition = "2021"
publish = false

[dependencies]
serde_json = "=1.0.151"
serde = { version = "=1.0.229", features = ["derive"] }
chrono = { version = "=0.4.45", features = ["serde"] }
axum = "=0.8.9"
async-trait = "=0.1.92"
thiserror = "=2.0.21"
