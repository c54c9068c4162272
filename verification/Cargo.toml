[package]
name = "ucan_key_support"
version = "0.1.0"
edition = "2021"
publish = false

[dependencies]
rsa = "0.9"
sha2 = "0.10"
rand = "0.8"
bs58 = "0.5"
anyhow = "1"
wasm-bindgen = "0.2"
js-sys = "0.3"
wasm-bindgen-futures = "0.4"
web-sys = { version = "0.3", features = ["Crypto", "CryptoKey", "CryptoKeyPair", "SubtleCrypto"] }
