[package]
name = "plugin_api"
version = "0.1.0"
edition = "2021"
publish = false

[dependencies]
quote = "=1.0.47"
serde = { version = "=1.0.229", features = ["derive"] }
serde_json = "=1.0.154"
syn = "=2.0.119"
