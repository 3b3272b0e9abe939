[package]
name = "damage_calc"
version = "0.1.0"
edition = "2021"
publish = false

[dependencies]
rand = { version = "=0.8.5", features = ["small_rng"] }
web-sys = { version = "0.3", features = ["Window", "Storage", "Document", "Element", "HtmlCanvasElement", "HtmlImageElement", "CanvasRenderingContext2d", "ImageData", "console"] }
wasm-bindgen = "0.2"
serde = { version = "1", features = ["derive"] }
serde_json = "1"
serde-wasm-bindgen = "0.6"
anyhow = "1"
base64 = "0.22"
image = { version = "0.25", default-features = false }
log = "0.4"
console_log = "1"
console_error_panic_hook = "0.1"
