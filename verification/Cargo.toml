[package]
name = "itchat"
version = "0.1.0"
edition = "2021"
publish = false

[dependencies]
chrono = "=0.4.45"
rs-snowflake = "=0.6.0"
nanoid = "=0.4.0"
serde = { version = "=1.0.229", features = ["derive"] }
serde_json = "=1.0.154"
serde_repr = "=0.1.21"
axum = "=0.5.17"
tokio = { version = "=1.54.1", features = ["full"] }
log = "=0.4.35"
uuid = { version = "=1.29.0", features = ["v4"] }
sqlx = { version = "=0.6.3", features = ["runtime-tokio-rustls", "postgres", "json", "uuid", "chrono"] }
reqwest = { version = "0.11", default-features = false, features = ["rustls-tls"] }
acme2 = "*"
