[package]
name = "dnscrypt_unseal"
version = "0.1.0"
edition = "2021"
publish = false

[dependencies]
crypto_box = { version = "=0.9.1", features = ["chacha20"] }
libsodium-sys = "=0.2.7"
zeroize = "=1.9.1"
