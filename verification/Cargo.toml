[package]
name = "console_error_panic_hook"
version = "0.1.0"
edition = "2021"
publish = false

[dependencies]
cfg-if = "1.0"
wasm-bindgen = "0.2"
