[package]
name = "webgpu_worker"
version = "0.1.0"
edition = "2021"
publish = false

[dependencies]
wgpu = "*"
bytemuck = { version = "*", features = ["derive"] }
console_error_panic_hook = "*"
js-sys = "*"
nalgebra-glm = { version = "*", features = ["convert-bytemuck"] }
serde = { version = "*", features = ["derive"] }
tsify-next = "*"
wasm-bindgen = "*"
wasm-bindgen-futures = "*"
web-sys = { version = "*", features = ["OffscreenCanvas"] }
web-time = "*"
