[package]
name = "web_demo"
version = "0.1.0"
edition = "2021"
publish = false

[dependencies]
embedded-graphics = "=0.8.2"
embedded-graphics-web-simulator = "=0.4.0"
log = "0.4"
wasm-bindgen = "0.2"
wasm-logger = "0.2"
console_error_panic_hook = "0.1"
web-sys = { version = "0.3", features = ["Window", "Document", "Element", "Event", "EventTarget", "MouseEvent", "CustomEvent", "DomRect"] }
