[package]
name = "wasm_executor"
version = "0.1.0"
edition = "2021"
publish = false

[dependencies]
prometheus = { version = "0.12", default-features = false }
tonic = { version = "0.6", default-features = false }
wasmtime-environ = "0.37"
