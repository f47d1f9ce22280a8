[package]
name = "car_suspension"
version = "0.1.0"
edition = "2021"
publish = false

[dependencies]
bevy = { version = "=0.12.1", default-features = false }
bevy_rapier3d = { version = "=0.23.0", default-features = false, features = ["dim3"] }
console_error_panic_hook = "0.1"
console_log = "1"
log = "0.4"
three-d = { version = "0.16", features = ["egui-gui"] }
tokio = { version = "1", features = ["macros", "rt-multi-thread"] }
wasm-bindgen = "0.2"
