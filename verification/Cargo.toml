[package]
name = "mancala_frontend"
version = "0.1.0"
edition = "2021"
publish = false

[dependencies]
anyhow = "=1.0.104"
console_log = "=1.1.0"
gloo-timers = { version = "=0.4.0", features = ["futures"] }
log = "=0.4.34"
reqwasm = "=0.5.0"
serde = { version = "=1.0.229", features = ["derive"] }
stylist = { version = "=0.15.1", features = ["yew_integration"] }
uuid = { version = "=1.29.0", features = ["serde"] }
wasm-bindgen = "=0.2.129"
wasm-bindgen-futures = "=0.4.79"
web-sys = { version = "=0.3.106", features = ["Document", "Element", "Event", "EventTarget", "HtmlElement", "Location", "MouseEvent", "Window"] }
yew = { version = "=0.23.0", features = ["csr"] }
yew-router = "=0.20.0"
yewdux = "=0.13.0"
