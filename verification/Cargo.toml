[package]
name = "webrtc_datachannels"
version = "0.1.0"
edition = "2021"
publish = false

[dependencies]
anyhow = "=1.0.104"
async-trait = "=0.1.92"
axum = "=0.8.9"
bytes = "=1.12.1"
futures = "=0.3.34"
reqwest = { version = "=0.13.5", default-features = false }
rtc = "=0.21.1"
serde = { version = "=1.0.229", features = ["derive"] }
serde_json = "=1.0.154"
tokio = { version = "=1.54.1", features = ["full"] }
tracing = "=0.1.44"
wasmtime = { version = "=46.0.3", features = ["component-model-async"] }
wasmtime-wasi = { version = "=46.0.3", features = ["p3"] }
wasmtime-wasi-http = { version = "=46.0.3", features = ["p3"] }
webrtc = "=0.21.1"
