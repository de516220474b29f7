[package]
name = "frontend"
version = "0.1.0"
edition = "2021"
publish = false

[dependencies]
uuid = { version = "1", features = ["serde"] }
chrono = { version = "0.4", features = ["serde"] }
serde = { version = "1", features = ["derive"] }
serde_json = "1"
leptos = { version = "0.8", features = ["csr"] }
gloo-net = { version = "0.6", features = ["http", "json"] }
gloo-timers = { version = "0.3", features = ["futures"] }
web-sys = { version = "0.3", features = ["Window", "Storage", "Location", "History", "WebSocket", "MessageEvent", "CloseEvent", "ErrorEvent", "SubmitEvent", "Event"] }
wasm-bindgen = "0.2"
js-sys = "0.3"
console_log = "1"
console_error_panic_hook = "0.1"
log = "0.4"
