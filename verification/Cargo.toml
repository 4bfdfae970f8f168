[package]
name = "cryptoki_hkdf"
version = "0.1.0"
edition = "2021"
publish = false

[dependencies]
cryptoki-sys = "*"
