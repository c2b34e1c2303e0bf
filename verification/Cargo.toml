[package]
name = "skynet"
version = "0.1.0"
edition = "2021"
publish = false

[dependencies]
rust-crypto = "0.2"
rand = "0.8"
hyper = { version = "0.14", features = ["client", "http1", "tcp"] }
hyper-tls = "0.5"
http = "0.2"
serde = { version = "1", features = ["derive"] }
serde_json = "1"
blake2 = "0.10"
ed25519-dalek = "2"
pbkdf2 = "0.12"
hmac = "0.12"
sha2 = "0.10"
