[package]
name = "system_monitor"
version = "0.1.0"
edition = "2021"
publish = false

[dependencies]
serde = { version = "=1.0.229", features = ["derive"] }
serde_json = "=1.0.154"
sysinfo = { version = "=0.39.6", default-features = false, features = ["system", "disk"] }
wasm-bindgen = "=0.2.129"
