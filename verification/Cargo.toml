[package]
name = "gl_gui"
version = "0.1.0"
edition = "2021"
publish = false

[dependencies]
cgmath = "=0.18.0"
chrono = "=0.4.45"
futures = "=0.3.34"
fxhash = "=0.2.1"
glfw = "=0.63.0"
glow = "=0.18.0"
image = { version = "=0.25.10", default-features = false, features = ["png"] }
js-sys = "=0.3.106"
log = "=0.4.34"
lyon_tessellation = "=1.0.23"
rusttype = "=0.9.3"
serde = { version = "=1.0.229", features = ["derive"] }
uid = "=0.1.9"
wasm-bindgen = "=0.2.129"
wasm-bindgen-futures = "=0.4.79"
wasm-stopwatch = "=0.2.1"
web-sys = { version = "=0.3.106", features = ["Window", "Document", "Element", "Event", "EventTarget", "HtmlElement", "HtmlCanvasElement", "HtmlImageElement", "WebGl2RenderingContext", "WebGlContextAttributes", "KeyboardEvent", "MouseEvent", "WheelEvent", "Request", "RequestInit", "RequestMode", "Response"] }
