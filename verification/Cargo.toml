[package]
name = "poline"
version = "0.1.0"
edition = "2021"
publish = false

[dependencies]
decorum = "0.3"
rand = "0.8"
serde = { version = "1", features = ["derive"] }
serde-wasm-bindgen = "0.5"
thiserror = "1"
wasm-bindgen = "0.2"
