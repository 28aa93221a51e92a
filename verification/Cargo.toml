[package]
name = "wstui"
version = "0.1.0"
edition = "2021"
publish = false

[dependencies]
anyhow = "1"
async-trait = "0.1"
chrono = "0.4"
clap = { version = "3", features = ["derive"] }
crossterm = "0.23"
dotenv = "0.15"
tokio = { version = "1", features = ["full"] }
tokio-tungstenite = "0.17"
tracing = "0.1"
tracing-appender = "0.2"
tracing-subscriber = "0.3"
tui = "0.18"
unicode-width = "=0.1.9"
url = "2"
