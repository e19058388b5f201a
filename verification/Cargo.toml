[package]
name = "canvaspads"
version = "0.1.0"
edition = "2021"
publish = false

[dependencies]
raw-window-handle = "0.6"
wasm-bindgen = "0.2"
wasm-bindgen-futures = "0.4"
web-sys = { version = "0.3", features = ["Document", "Element", "EventTarget", "HtmlCanvasElement", "HtmlElement", "Node", "TouchEvent", "Window"] }
wgpu = { version = "23", default-features = false, features = ["webgl", "wgsl"] }
