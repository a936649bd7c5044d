[package]
name = "seqrets_core"
version = "0.1.0"
edition = "2021"
publish = false

[dependencies]
argon2 = "=0.5.3"
base64 = "=0.22.1"
chacha20poly1305 = "=0.10.1"
flate2 = "=1.1.10"
rand = "=0.8.8"
zeroize = "=1.9.1"
pcsc = "=2.9.0"
serde = { version = "=1.0.229", features = ["derive"] }
log = "0.4"
tauri = { version = "2", default-features = false }
