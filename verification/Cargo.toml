[package]
name = "wasm_host"
version = "0.1.0"
edition = "2021"
publish = false

[dependencies]
wasmtime = "=48.0.5"
lazy_static = "=1.5.1"
redis-module = "=2.0.8"
