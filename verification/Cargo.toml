[package]
name = "indicator_math"
version = "0.1.0"
edition = "2021"
publish = false

[dependencies]
anyhow = "1"
bytemuck = "1"
dashmap = "5"
futures-channel = "0.3"
futures-util = { version = "0.3", features = ["sink"] }
js-sys = "0.3"
lazy_static = "1"
serde = { version = "1", features = ["derive"] }
serde_json = "1"
serde-wasm-bindgen = "0.6"
tokio = { version = "1", features = ["rt", "rt-multi-thread", "macros"] }
tokio-tungstenite = "0.21"
url = "2"
wasm-bindgen = "0.2"
wgpu = "0.20"
