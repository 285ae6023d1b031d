[package]
name = "temporal_wasm"
version = "0.1.0"
edition = "2021"
publish = false

[dependencies]
base64 = "0.13"
serde = { version = "1", features = ["derive"] }
serde_json = "1"
wee_alloc = "0.4"
