[package]
name = "bgpq3"
version = "0.1.0"
edition = "2021"
publish = false

[dependencies]
ipnetwork = "*"
serde = { version = "1", features = ["derive"] }
serde_json = "1"
thiserror = "*"
tokio = { version = "1", features = ["process"] }
