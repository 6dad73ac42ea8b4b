[package]
name = "domatt"
version = "0.1.0"
edition = "2021"
publish = false

[dependencies]
url = "=2.5.8"
web-sys = { version = "=0.3.106", features = ["Element", "Event"] }
wasm-bindgen = "=0.2.129"
