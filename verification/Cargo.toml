[package]
name = "telega_checker"
version = "0.1.0"
edition = "2021"
publish = false
rust-version = "1.95"

[dependencies]
anyhow = "1"
axum = "0.8"
dotenvy = "0.15"
dptree = "*"
futures = "0.3"
hex = "0.4"
hmac = "0.12"
moka = { version = "0.12", features = ["future"] }
reqwest = { version = "0.13", default-features = false, features = ["form", "rustls"] }
serde = { version = "1", features = ["derive"] }
serde_json = "1"
sha2 = "0.10"
sqlx = { version = "0.8", default-features = false, features = ["runtime-tokio", "sqlite"] }
takecell = "=0.1.1"
teloxide = { version = "0.17", default-features = false, features = ["macros", "rustls", "ctrlc_handler"] }
tokio = { version = "1", features = ["full"] }
tokio-cron-scheduler = "*"
tracing = "0.1"
tracing-subscriber = { version = "0.3", features = ["env-filter"] }
uuid = { version = "1", features = ["v4"] }
