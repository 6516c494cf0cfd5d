[package]
name = "issue_db_api"
version = "0.1.0"
edition = "2021"
publish = false

[dependencies]
lazy-init = "*"
reqwest = { version = "0.11", features = ["blocking", "json", "multipart"] }
serde = { version = "1", features = ["derive"] }
serde_json = "1"
