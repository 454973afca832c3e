[package]
name = "wasm-tracing"
version = "0.1.0"
edition = "2021"
publish = false

[dependencies]
rayon = "1"
tracing = { version = "0.1", default-features = false, features = ["std"] }
tracing-log = { version = "0.2", default-features = false, features = ["std"] }
tracing-subscriber = { version = "0.3", default-features = false, features = ["registry", "std"] }
wasm-bindgen = "0.2"
