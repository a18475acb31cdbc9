[package]
name = "mercato"
version = "0.1.0"
edition = "2021"
publish = false

[dependencies]
anyhow = "1"
atrium-api = "*"
chrono = { version = "0.4", features = ["serde"] }
serde = { version = "1", features = ["derive"] }
serde_json = "1"
worker = { version = "*", features = ["d1"] }
