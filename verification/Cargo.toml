[package]
name = "avinet"
version = "0.1.0"
edition = "2021"
publish = false

[dependencies]
anyhow = "1"
axum = { version = "0.7", features = ["ws"] }
console_error_panic_hook = "0.1"
dotenvy = "0.15"
eframe = { version = "0.31", default-features = false, features = ["default_fonts", "glow", "x11"] }
futures-channel = "0.3"
futures-util = { version = "0.3", features = ["sink"] }
gloo-net = "0.6"
log = "0.4"
serde = { version = "1", features = ["derive"] }
serde_json = "1"
tokio = { version = "1", features = ["macros", "net", "rt-multi-thread", "sync"] }
tower-http = { version = "0.6", features = ["fs"] }
tracing = "0.1"
tracing-subscriber = { version = "0.3", features = ["env-filter"] }
uuid = { version = "1", features = ["js", "serde", "v4"] }
wasm-bindgen = "0.2"
wasm-bindgen-futures = "0.4"
wasm-logger = "0.2"
web-sys = { version = "0.3", features = ["Document", "Element", "HtmlCanvasElement", "Location", "Window"] }
