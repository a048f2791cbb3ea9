[package]
name = "tunl"
version = "0.1.0"
edition = "2021"
publish = false

[dependencies]
aes = "0.8"
aes-gcm = "0.10"
base64 = "0.22"
bytes = "1"
futures-util = "0.3"
md-5 = "0.10"
pin-project-lite = "0.2"
serde = { version = "1", features = ["derive"] }
serde_json = "1"
sha2 = "0.10"
tokio = { version = "1", features = ["io-util"] }
uuid = "1"
wasm-bindgen-futures = "0.4"
worker = "*"
