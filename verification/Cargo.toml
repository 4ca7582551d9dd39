[package]
name = "rfesi"
version = "0.1.0"
edition = "2021"
publish = false

[dependencies]
reqwest = { version = "0.12", features = ["json"] }
rand = "0.8"
serde = { version = "1", features = ["derive"] }
serde_json = "1"
