[package]
name = "celes"
version = "0.1.0"
edition = "2021"
publish = false

[dependencies]
serde = "=1.0.229"

[dev-dependencies]
serde_json = "=1.0.154"
