[package]
name = "path_classifier"
version = "0.1.0"
edition = "2021"
publish = false

[dependencies]
globset = "0.4"
napi = "2"
napi-derive = "2"
serde = { version = "1", features = ["derive"] }
serde_json = "1"
