[package]
name = "techfest"
version = "0.1.0"
edition = "2021"
publish = false

[dependencies]
argon2 = { version = "=0.5.3", features = ["std"] }
base64 = "=0.22.1"
highway = "=1.3.0"
rand = "=0.8.8"
axum = "=0.7.9"
axum-extra = { version = "=0.9.6", features = ["cookie", "form"] }
chrono = { version = "=0.4.45", features = ["serde"] }
diesel = { version = "=2.3.14", features = ["postgres", "r2d2", "chrono"] }
http = "=1.5.0"
jsonwebtoken = "=9.3.1"
log = "=0.4.34"
serde = { version = "=1.0.229", features = ["derive"] }
serde_json = "=1.0.154"
tokio = { version = "=1.54.1", features = ["full"] }
anyhow = "=1.0.104"
diesel-derive-enum = { version = "=2.1.0", features = ["postgres"] }
dotenvy = "=0.15.7"
image = { version = "=0.25.10", default-features = false, features = ["avif", "jpeg", "png"] }
inquire = { version = "=0.9.4", features = ["date"] }
mail-send = "=0.6.2"
pretty_env_logger = "=0.5.0"
tokio-util = { version = "=0.7.20", features = ["io"] }
tower-http = { version = "=0.7.1", features = ["cors", "compression-br", "compression-gzip"] }
