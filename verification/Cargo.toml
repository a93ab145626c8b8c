[package]
name = "mikado"
version = "0.1.0"
edition = "2021"
publish = false

[dependencies]
bitflags = "2"
thiserror = "1"
log = "0.4"
wasm-bindgen = "0.2"
wasm-bindgen-futures = "0.4"
web-sys = { version = "0.3", features = ["Window", "Navigator", "MediaDevices", "Event", "EventTarget"] }
bindgen = "0.65"
cc = "1"
