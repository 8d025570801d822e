[package]
name = "plugin_boundary"
version = "0.1.0"
edition = "2021"
publish = false

[dependencies]
derivative = "2"
napi = "2"
napi-derive = "2"
serde = { version = "1", features = ["derive"] }
