[package]
name = "ygame"
version = "0.1.0"
edition = "2021"
publish = false

[dependencies]
uuid = { version = "=0.8.2", features = ["v4"] }
rand = "=0.8.8"
serde = { version = "=1.0.229", features = ["derive"] }
serde_json = "=1.0.154"
rmp-serde = "=1.3.1"
actix = "=0.10.0"
actix-web = "=3.3.3"
actix-web-actors = "=3.0.0"
clap = "=2.34.0"
wasm-bindgen = "=0.2.129"
js-sys = "=0.3.106"
console_error_panic_hook = "=0.1.7"
web-sys = { version = "=0.3.106", features = ["BinaryType", "Blob", "Document", "Element", "ErrorEvent", "Event", "EventTarget", "History", "HtmlCollection", "HtmlElement", "HtmlFormElement", "HtmlInputElement", "Location", "MessageEvent", "Node", "Performance", "PopStateEvent", "Storage", "WebSocket", "Window", "console"] }
