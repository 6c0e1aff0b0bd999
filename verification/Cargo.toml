[package]
name = "schnick"
version = "0.1.0"
edition = "2021"
publish = false

[dependencies]
anyhow = "1"
askama = "*"
async-stream = "0.3"
axum = "0.8"
axum-extra = { version = "0.10", features = ["cookie"] }
chrono = "0.4"
clap = { version = "4", features = ["derive"] }
diesel = { version = "2.3", features = ["postgres_backend", "uuid", "chrono"] }
diesel-async = { version = "*", features = ["postgres", "bb8"] }
dotenvy = "0.15"
env_logger = "*"
futures = "0.3"
log = "0.4"
qrcode = { version = "*", default-features = false, features = ["svg"] }
rand = "0.9"
serde = { version = "1", features = ["derive"] }
serde_json = "1"
serde_repr = "0.1"
tokio = { version = "1", features = ["full"] }
tokio-stream = { version = "0.1", features = ["sync"] }
url = "2"
uuid = { version = "1", features = ["v4", "serde"] }
