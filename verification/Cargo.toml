[package]
name = "limudim"
version = "0.1.0"
edition = "2021"
publish = false

[dependencies]
icu_calendar = "*"
serde = { version = "1", features = ["derive"] }
serde-wasm-bindgen = "*"
wasm-bindgen = "*"
