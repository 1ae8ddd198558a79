[package]
name = "pen_to_todoist"
version = "0.1.0"
edition = "2021"
publish = false

[dependencies]
base64 = "=0.13.1"
console_error_panic_hook = "=0.1.7"
hmac-sha256 = "=1.1.15"
js-sys = "=0.3.106"
rsa = { version = "0.9", features = ["sha2"] }
serde = { version = "=1.0.229", features = ["derive"] }
serde_json = "=1.0.154"
wasm-bindgen = "=0.2.129"
wasm-bindgen-futures = "=0.4.79"
web-sys = { version = "=0.3.106", features = ["FormData", "Headers", "Request", "RequestInit", "Response", "Window", "console"] }
