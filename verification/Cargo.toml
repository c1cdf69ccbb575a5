[package]
name = "wasm_plugin_host"
version = "0.1.0"
edition = "2021"
publish = false

[dependencies]
serde_json = "=1.0.151"
parking_lot = "=0.12.5"
wasmer = "=5.0.6"
