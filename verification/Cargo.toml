[package]
name = "wokio"
version = "0.1.3"
edition = "2021"
publish = false

[dependencies]
futures = "0.3"
js-sys = "0.3"
pin-project-lite = "0.2"
sync_wrapper = "1"
tokio = { version = "1", features = ["io-util", "macros", "rt", "sync", "time"] }
tracing = "0.1"
wasm-bindgen = "0.2"
wasm-bindgen-futures = "0.4"
web-sys = { version = "0.3", features = ["Performance", "Window", "WorkerGlobalScope"] }
