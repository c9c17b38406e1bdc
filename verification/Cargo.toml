[package]
name = "hush-crypto"
version = "0.1.0"
edition = "2021"
publish = false

[dependencies]
curve25519-dalek = "=4.1.3"
getrandom = "=0.2.17"
libsignal-dezire = "=0.2.0"
serde = { version = "=1.0.229", features = ["derive"] }
serde_json = "=1.0.154"
serde-wasm-bindgen = "=0.6.5"
wasm-bindgen = "=0.2.129"
x25519-dalek = { version = "=2.0.1", features = ["static_secrets"] }
