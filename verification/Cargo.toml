[package]
name = "wasm_mt_hotswap_example"
version = "0.1.0"
edition = "2021"
publish = false

[dependencies]
console_error_panic_hook = "=0.1.7"
dioxus-cli-config = "=0.7.10"
dioxus-devtools = "=0.7.10"
futures-channel = "=0.3.34"
js-sys = "=0.3.107"
rayon = "=1.12.0"
serde_json = "=1.0.154"
serde-wasm-bindgen = "=0.6.5"
subsecond = "=0.7.10"
wasm-bindgen = "=0.2.130"
wasm-bindgen-futures = "=0.4.80"
web-sys = { version = "=0.3.107", features = ["console", "DedicatedWorkerGlobalScope", "Document", "Element", "ErrorEvent", "Event", "EventTarget", "ImageData", "Location", "MessageEvent", "WebSocket", "Window", "Worker", "WorkerGlobalScope", "WorkerOptions", "WorkerType"] }
