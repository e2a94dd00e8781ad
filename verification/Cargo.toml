[package]
name = "claw10"
version = "0.1.0"
edition = "2021"
publish = false

[dependencies]
uuid = { version = "=1.29.0", features = ["v7"] }
chrono = "=0.4.45"
chrono-tz = "=0.10.4"
cron = "=0.17.0"
serde = { version = "=1.0.229", features = ["derive"] }
serde_json = "=1.0.154"
sled = "=0.34.7"
tracing = "=0.1.44"
thiserror = "=2.0.21"
toml = "*"
dirs = "*"
