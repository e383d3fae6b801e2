[package]
name = "watchreload"
version = "0.1.0"
edition = "2021"
publish = false

[dependencies]
anyhow = "1"
clap = { version = "4", features = ["derive"] }
env_logger = "*"
futures-util = "0.3"
js-sys = "0.3"
log = "0.4"
tokio = { version = "1", features = ["macros", "net", "process", "rt-multi-thread", "signal", "sync"] }
tokio-tungstenite = "*"
wasm-bindgen = "0.2"
web-sys = { version = "0.3", features = ["Location", "MessageEvent", "WebSocket", "Window"] }
