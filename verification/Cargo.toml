[package]
name = "scroll_export"
version = "0.1.0"
edition = "2021"
publish = false

[dependencies]
serde_json = "1"
elasticsearch = "=8.5.0-alpha.1"
reqwest = "0.11"
tokio = { version = "1", features = ["rt"] }
