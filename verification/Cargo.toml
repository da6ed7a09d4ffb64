[package]
name = "falling_words"
version = "0.1.0"
edition = "2021"
publish = false

[dependencies]
rapier2d = "0.18"
wasm-bindgen = "0.2"
web-sys = { version = "0.3", features = ["CanvasRenderingContext2d", "Document", "Element", "HtmlCanvasElement", "Window"] }
console_error_panic_hook = "0.1"
