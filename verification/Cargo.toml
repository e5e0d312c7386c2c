[package]
name = "landmark_canvas"
version = "0.1.0"
edition = "2021"
publish = false

[dependencies]
yew = { version = "0.21", features = ["csr"] }
yew-hooks = "0.3.4"
wasm-bindgen = "0.2"
js-sys = "0.3"
web-sys = { version = "0.3", features = ["Window", "HtmlCanvasElement", "CanvasRenderingContext2d", "KeyboardEvent", "EventTarget"] }
console_error_panic_hook = "0.1"
