[package]
name = "mcp_types"
version = "0.1.0"
edition = "2021"
publish = false

[dependencies]
base64 = "0.22"
base64-serde = "0.8"
chrono = { version = "0.4", default-features = false, features = ["std", "serde"] }
extism-pdk = "1"
schemars = "1"
serde = { version = "1", features = ["derive"] }
serde_json = "1"
