[package]
name = "blobs"
version = "0.1.0"
edition = "2021"
publish = false

[dependencies]
wasm-bindgen = "*"
web-sys = { version = "*", features = ["Window", "Document", "Element", "EventTarget", "HtmlCanvasElement", "HtmlInputElement", "CanvasRenderingContext2d", "MouseEvent", "TouchEvent", "Touch", "TouchList", "Performance"] }
