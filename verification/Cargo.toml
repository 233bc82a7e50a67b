[package]
name = "unitycatalog-common"
version = "0.1.0"
edition = "2021"
publish = false

[dependencies]
chrono = "0.4"
olai-store = "*"
serde = { version = "1", features = ["derive"] }
serde_json = "1"
strum = { version = "*", features = ["derive"] }
uuid = { version = "1", features = ["serde"] }
