[package]
name = "finite-wasm"
version = "0.1.0"
edition = "2021"
publish = false

[dependencies]
thiserror = "=1.0.69"
walkdir = "=2.5.0"
wasmparser = "=0.90.0"
