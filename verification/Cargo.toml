[package]
name = "rayhunter"
version = "0.1.0"
edition = "2021"
publish = false

[dependencies]
serde = { version = "1", features = ["derive"] }
serde_json = "1"
chrono = { version = "0.4", features = ["serde"] }
tokio = { version = "1", features = ["fs", "io-util", "time", "rt", "macros", "sync"] }
tokio-util = "0.7"
