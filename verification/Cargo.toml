[package]
name = "oneword"
version = "0.1.0"
edition = "2021"
publish = false

[dependencies]
regex = "=1.13.1"
serde = { version = "=1.0.229", features = ["derive"] }
serde_json = "=1.0.154"
serde_with = "=3.24.0"
oauth2 = { version = "=4.4.2", default-features = false }
reqwest = { version = "=0.11.27", default-features = false, features = ["json", "rustls-tls"] }
axum = "=0.6.20"
hyper = "=0.14.32"
tokio = { version = "=1.54.1", features = ["full"] }
log = "=0.4.35"
poise = "=0.6.2"
sea-orm = { version = "=0.12.15", default-features = false, features = ["macros", "sqlx-postgres", "runtime-tokio-rustls"] }
