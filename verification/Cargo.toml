[package]
name = "log_collector"
version = "0.1.0"
edition = "2021"
publish = false

[dependencies]
base62 = "=2.2.6"
chrono = { version = "=0.4.45", features = ["serde"] }
serde = { version = "=1.0.229", features = ["derive"] }
serde_json = { version = "=1.0.154", features = ["preserve_order"] }
tokio = { version = "=1.54.1", features = ["macros", "rt-multi-thread"] }
tracing = "=0.1.44"
tracing-subscriber = { version = "=0.3.23", features = ["json"] }
uuid = { version = "=1.29.0", features = ["v4"] }
