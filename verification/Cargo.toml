[package]
name = "aes_cbc_hmac"
version = "0.1.0"
edition = "2021"
publish = false

[dependencies]
anyhow = "1"
openssl = "0.10"
