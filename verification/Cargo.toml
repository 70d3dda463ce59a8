[package]
name = "wallet_core"
version = "0.1.0"
edition = "2021"
publish = false

[dependencies]
bdk = "=0.28.2"
bip39 = { version = "=3.0.0", features = ["rand"] }
base64 = "0.13"
hex = "0.4"
bitcoin_hashes = "0.11"
sled = "0.34"
