[package]
name = "enr_keys"
version = "0.1.0"
edition = "2021"
publish = false

[dependencies]
libsecp256k1 = "=0.7.2"
ed25519-dalek = "=3.0.0"
rand = "=0.8.8"
zeroize = "=1.9.0"
sha3 = "=0.12.0"
