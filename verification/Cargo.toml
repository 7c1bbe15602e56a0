[package]
name = "email_core"
version = "0.1.0"
edition = "2021"
publish = false

[dependencies]
mailparse = "*"
async-imap = { version = "*", default-features = false, features = ["runtime-tokio"] }
async-native-tls = { version = "*", default-features = false, features = ["runtime-tokio"] }
tokio = { version = "1", features = ["full"] }
futures = "*"
dotenvy = "*"
serde = { version = "1", features = ["derive"] }
crossterm = "*"
ratatui = "*"
