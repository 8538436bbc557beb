[package]
name = "smart_meter_server"
version = "0.1.0"
edition = "2021"
publish = false

[dependencies]
anyhow = "*"
bcrypt = "*"
chrono = "*"
rand = "*"
serde = { version = "*", features = ["derive"] }
serde_json = "*"
tokio = { version = "*", features = ["io-util", "macros", "net", "rt-multi-thread", "signal", "sync", "time"] }
tracing = "*"
tracing-subscriber = "*"
