[package]
name = "bbs_signatures"
version = "0.1.0"
edition = "2021"
publish = false

[dependencies]
bbs = "0.4"
pairing-plus = "0.19"
rand = "0.7"
hkdf = "0.8"
sha2 = "0.8"
serde = { version = "1", features = ["derive"] }
wasm-bindgen = "0.2"
serde-wasm-bindgen = "*"
