[package]
name = "matrix_bot_ical"
version = "0.1.0"
edition = "2021"
publish = false

[dependencies]
anyhow = "=1.0.104"
chrono = "=0.4.45"
clap = { version = "=4.6.7", features = ["derive"] }
daemonize = "=0.5.0"
ical = "=0.11.0"
matrix-sdk = { version = "=0.18.0", default-features = false, features = ["markdown"] }
reqwest = { version = "=0.13.5", default-features = false, features = ["blocking"] }
tokio = { version = "=1.53.2", features = ["macros", "rt-multi-thread", "time"] }
tokio-cron-scheduler = "=0.15.1"
toml = "=0.8.23"
