[package]
name = "daily_standup"
version = "0.1.0"
edition = "2021"
publish = false

[dependencies]
base64 = "0.13"
chrono = "0.4"
sha2 = "0.8"
serde = { version = "1", features = ["derive"] }
serde_json = "1"
hyper = "0.10"
nickel = "0.11"
