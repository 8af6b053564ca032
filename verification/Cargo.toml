[package]
name = "office_sync"
version = "0.1.0"
edition = "2021"
publish = false

[dependencies]
eframe = { version = "*", default-features = false, features = ["default_fonts", "glow", "persistence", "x11"] }
egui = "*"
futures = "*"
gloo-timers = { version = "*", features = ["futures"] }
js-sys = "*"
serde = { version = "*", features = ["derive"] }
wasm-bindgen = "*"
wasm-bindgen-futures = "*"
web-sys = { version = "*", features = ["console"] }
