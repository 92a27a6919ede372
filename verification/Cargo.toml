[package]
name = "snap"
version = "0.1.0"
edition = "2021"
publish = false

[dependencies]
base64 = "0.22"
chrono = "0.4"
dirs = "5"
png = "0.17"
serde = { version = "1", features = ["derive"] }
serde_json = "1"
