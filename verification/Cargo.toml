[package]
name = "auth_ms"
version = "0.1.0"
edition = "2021"
publish = false

[dependencies]
argon2 = { version = "=0.5.3", features = ["std"] }
jsonwebtoken = "=9.3.1"
serde_json = { version = "=1.0.154", features = ["raw_value"] }
serde = { version = "=1.0.229", features = ["derive"] }
uuid = { version = "=1.29.1", features = ["v4", "serde"] }
axum = "=0.7.9"
tokio = { version = "=1.54.1", features = ["full"] }
tower-http = { version = "=0.5.2", features = ["trace"] }
tracing = "=0.1.44"
tracing-subscriber = { version = "=0.3.23", features = ["env-filter"] }
dotenvy = "=0.15.7"
anyhow = "=1.0.104"
thiserror = "=1.0.69"
async-trait = "=0.1.92"
diesel = { version = "=2.3.14", features = ["postgres", "r2d2", "uuid"] }
diesel_migrations = "=2.3.2"
