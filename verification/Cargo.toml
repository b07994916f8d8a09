[package]
name = "animal_viewer"
version = "0.1.0"
edition = "2021"
publish = false

[dependencies]
anyhow = "1"
log = "0.4"
serde_json = "1"
wasm-bindgen = "0.2"
wasm-logger = "0.2"
yew = "0.18"
