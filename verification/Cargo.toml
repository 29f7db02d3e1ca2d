[package]
name = "diamond_market"
version = "0.1.0"
edition = "2021"
publish = false

[dependencies]
chrono = "=0.4.45"
dashmap = { version = "=5.5.3", features = ["serde"] }
dotenv = "=0.15.0"
lazy_static = "=1.5.1"
reqwest = { version = "=0.11.27", default-features = false, features = ["blocking"] }
rocket = { version = "0.5", features = ["json"] }
serde = { version = "=1.0.229", features = ["derive"] }
serde_json = "=1.0.154"
