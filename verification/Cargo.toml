[package]
name = "wasmchat"
version = "0.1.0"
edition = "2021"
publish = false

[dependencies]
yew = { version = "*", features = ["csr"] }
wasm-bindgen = "*"
wasm-bindgen-futures = "*"
js-sys = "*"
web-sys = { version = "*", features = ["Window", "Event", "EventTarget", "HtmlInputElement", "InputEvent", "KeyboardEvent", "console"] }
serde = { version = "*", features = ["derive"] }
serde-wasm-bindgen = "*"
log = "*"
wasm-logger = "*"
