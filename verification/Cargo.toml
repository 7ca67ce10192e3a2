[package]
name = "vendek"
version = "0.1.0"
edition = "2021"
publish = false

[dependencies]
axum = "0.7"
bytemuck = { version = "1", features = ["derive"] }
console_error_panic_hook = "0.1"
console_log = "1"
env_logger = "0.11"
glam = { version = "0.29", features = ["bytemuck"] }
js-sys = "0.3"
log = "0.4"
pollster = "0.4"
rand = "0.8"
rand_chacha = "0.3"
tokio = { version = "1", features = ["macros", "net", "rt-multi-thread"] }
tower-http = { version = "0.6", features = ["fs", "set-header"] }
wasm-bindgen = "0.2"
wasm-bindgen-futures = "0.4"
web-sys = { version = "0.3", features = ["CssStyleDeclaration", "Document", "Element", "HtmlCanvasElement", "HtmlElement", "Node", "Window", "console"] }
web-time = "1"
wgpu = "24"
winit = "0.30"
