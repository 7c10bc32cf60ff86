[package]
name = "wasm_client"
version = "0.1.0"
edition = "2021"
publish = false

[dependencies]
plonky2 = "=0.2.2"
serde = { version = "=1.0.229", features = ["derive"] }
serde_json = "=1.0.154"
wasm-bindgen = "=0.2.130"
