[package]
name = "wasm_thread"
version = "0.1.0"
edition = "2021"
publish = false

[dependencies]
futures = "0.3"
wasm-bindgen = "0.2"
wasm-bindgen-futures = "0.4"
web-sys = { version = "0.3", features = ["Worker", "WorkerOptions", "WorkerType", "DedicatedWorkerGlobalScope", "MessageEvent"] }
