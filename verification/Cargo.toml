[package]
name = "repo_cache"
version = "0.1.0"
edition = "2021"
publish = false

[dependencies]
serde = { version = "*", features = ["derive"] }
gloo-net = "*"
gloo-storage = "*"
gloo-timers = "*"
gloo-events = "*"
js-sys = "*"
wasm-bindgen = "*"
wasm-bindgen-futures = "*"
web-sys = { version = "*", features = ["Window", "Document", "Element", "HtmlElement", "HtmlCanvasElement", "EventTarget", "console", "VisibilityState", "Navigator", "Clipboard", "WebGl2RenderingContext", "WebGlProgram", "WebGlShader", "WebGlBuffer", "WebGlVertexArrayObject"] }
yew = { version = "*", features = ["csr"] }
