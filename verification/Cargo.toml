[package]
name = "totp"
version = "0.1.0"
edition = "2021"
publish = false

[dependencies]
hmac = "0.12"
sha1 = "0.10"
wasm-bindgen = "0.2"
