[package]
name = "parse_xlsx"
version = "0.1.0"
edition = "2021"
publish = false

[dependencies]
calamine = "=0.37.0"
slug = "=0.1.6"
serde_json = "=1.0.154"
wasm-bindgen = "=0.2.129"
wasm-bindgen-futures = "=0.4.79"
js-sys = "=0.3.106"
web-sys = { version = "=0.3.106", features = ["File", "Blob"] }
gloo-utils = { version = "=0.2.0", features = ["serde"] }
