[package]
name = "ferrolife"
version = "0.1.0"
edition = "2021"
publish = false

[dependencies]
image = { version = "=0.25.10", default-features = false, features = ["png", "jpeg", "gif", "bmp", "webp"] }
anyhow = "=1.0.104"
bytemuck = { version = "=1.25.2", features = ["derive"] }
cgmath = "=0.18.0"
env_logger = "=0.11.11"
log = "=0.4.35"
pollster = "=1.0.1"
rfd = "=0.17.2"
wgpu = "=29.0.4"
winit = "=0.30.13"
web-time = "=1.1.0"
imgui = "=0.12.0"
imgui-wgpu = "=0.28.0"
imgui-winit-support = "=0.13.0"
wasm-bindgen = "*"
wasm-bindgen-futures = "*"
web-sys = { version = "*", features = ["Window", "Document", "Element", "HtmlElement", "HtmlInputElement", "Event", "EventTarget", "File", "FileList", "Blob", "Node"] }
console_log = "*"
console_error_panic_hook = "*"
