[package]
name = "atman"
version = "0.1.0"
edition = "2021"
publish = false

[dependencies]
data-encoding = "2"
hex = "0.4"
serde = { version = "1", features = ["derive"] }
serde_json = "1"
uuid = { version = "1", features = ["serde"] }
tokio = { version = "1", features = ["io-util", "sync", "rt", "macros"] }
