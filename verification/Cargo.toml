[package]
name = "http_policy"
version = "0.1.0"
edition = "2021"
publish = false

[dependencies]
aead = "0.5"
chacha20poly1305 = "0.10"
rand = "0.8"
http = "0.2"
