[package]
name = "aead_blob"
version = "0.1.0"
edition = "2021"
publish = false

[dependencies]
aes-gcm = "=0.9.4"
rand = "=0.8.8"
wasm-bindgen = "=0.2.92"
