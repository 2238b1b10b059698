[package]
name = "bvault"
version = "0.1.0"
edition = "2021"
publish = false

[dependencies]
aes = "*"
base64 = "*"
cbc = { version = "*", features = ["alloc", "block-padding"] }
pbkdf2 = { version = "*", features = ["hmac"] }
sha2 = "*"
wasm-bindgen = "*"
