[package]
name = "barter-data"
version = "0.1.0"
edition = "2021"
publish = false

[dependencies]
barter-integration = "=0.5.1"
chrono = { version = "=0.4.45", features = ["serde"] }
serde = { version = "=1.0.229", features = ["derive"] }
serde_json = "=1.0.154"
tokio = { version = "=1.54.1", features = ["sync", "rt", "time"] }
