[package]
name = "lucky"
version = "0.1.0"
edition = "2021"
publish = false

[dependencies]
anyhow = "1"
chrono = "0.4"
cron = "*"
futures = "0.3"
serde = { version = "1", features = ["derive"] }
serde_json = "1"
serde_yaml = "0.8"
shiplift = { version = "0.7", default-features = false, features = ["unix-socket"] }
subprocess = "0.2"
