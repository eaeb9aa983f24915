[package]
name = "nanobot"
version = "0.1.0"
edition = "2021"
publish = false

[dependencies]
anyhow = "1"
async-trait = "0.1"
chrono = { version = "=0.4.45", features = ["serde"] }
clap = { version = "4", features = ["derive"] }
dirs = "=5.0.1"
futures-util = "0.3"
hex = "0.4"
lazy_static = "1"
regex = "1"
reqwest = { version = "0.11", default-features = false, features = ["json", "multipart", "rustls-tls"] }
rustyline = { version = "12", default-features = false }
serde = { version = "1", features = ["derive"] }
serde_json = "=1.0.154"
sha2 = "0.10"
sqlx = { version = "0.7", default-features = false, features = ["runtime-tokio", "sqlite", "chrono"] }
takecell = "=0.1.1"
teloxide = { version = "0.12", default-features = false, features = ["macros", "ctrlc_handler", "rustls"] }
thiserror = "1"
tokio = { version = "1", features = ["full"] }
tokio-cron-scheduler = "0.9"
tokio-tungstenite = "0.20"
toml = "0.8"
tracing = "0.1"
tracing-subscriber = { version = "0.3", features = ["env-filter"] }
uuid = { version = "=1.29.0", features = ["v4"] }
