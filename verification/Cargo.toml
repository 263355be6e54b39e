[package]
name = "waterbus_rs"
version = "0.1.0"
edition = "2021"
publish = false

[dependencies]
bcrypt = "=0.19.3"
rand = "=0.9.5"
nanoid = "=0.4.0"
jsonwebtoken = "=9.3.1"
time = "=0.3.55"
chrono = { version = "=0.4.45", features = ["serde"] }
salvo = { version = "=1.1.0", features = ["oapi", "rate-limiter", "size-limiter", "affix-state"] }
tokio = { version = "=1.54.1", features = ["full"] }
diesel = { version = "=2.3.14", features = ["postgres", "r2d2", "chrono"] }
serde = { version = "=1.0.229", features = ["derive"] }
serde_json = { version = "=1.0.154", features = ["preserve_order"] }
dotenvy = "=0.15.7"
tracing = "=0.1.44"
tracing-subscriber = "=0.3.23"
anyhow = "=1.0.104"
async-channel = "=2.5.0"
uuid = { version = "=1.29.0", features = ["v4"] }
validator = { version = "=0.21.0", features = ["derive"] }
thiserror = "=2.0.21"
