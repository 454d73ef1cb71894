[package]
name = "tranquility"
version = "0.1.0"
edition = "2021"
publish = false

[dependencies]
ammonia = "=3.3.4"
argh = "0.1"
axum = "0.5"
base64 = "=0.13.1"
chrono = "0.4"
hex = "0.4"
itertools = "=0.10.5"
lettre = { version = "0.10", default-features = false, features = ["smtp-transport", "builder", "tokio1", "tokio1-rustls-tls"] }
rand = "=0.8.5"
regex = "1"
reqwest = { version = "0.11", default-features = false, features = ["json", "rustls-tls"] }
rsa = "=0.7.2"
rust-argon2 = "=1.0.1"
serde = { version = "1", features = ["derive"] }
serde_json = "1"
sha2 = "0.10"
sqlx = { version = "0.6", default-features = false, features = ["runtime-tokio-rustls", "postgres", "uuid", "json", "time", "macros"] }
time = "0.3"
tokio = { version = "1", features = ["full"] }
toml = "=0.5.11"
tower-http = { version = "0.3", features = ["cors"] }
tracing = "0.1"
tracing-subscriber = { version = "0.3", features = ["env-filter"] }
url = "2"
uuid = { version = "1", features = ["v4", "serde"] }
validator = "=0.16.1"
