[package]
name = "liwin"
version = "0.1.0"
edition = "2021"
publish = false

[dependencies]
serde = { version = "1", features = ["derive"] }
toml = "0.8"
dioxus = { version = "0.6", features = ["web", "router"] }
dioxus-router = "0.6"
dioxus-web = "0.6"
wasm-bindgen = "0.2"
js-sys = "0.3"
web-sys = { version = "0.3", features = ["Window", "Document", "Element", "EventTarget", "HtmlCanvasElement", "CanvasRenderingContext2d", "KeyboardEvent", "console"] }
gloo-timers = "0.3"
wasm-logger = "0.2"
