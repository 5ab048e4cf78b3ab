[package]
name = "hd_wallet"
version = "0.1.0"
edition = "2021"
publish = false

[dependencies]
bip39 = { version = "2", features = ["rand"] }
hmac = "0.12"
pbkdf2 = "0.12"
rand = "0.8"
sha2 = "0.10"
zeroize = "1"
