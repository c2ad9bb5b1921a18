[package]
name = "my_api"
version = "0.1.0"
edition = "2021"
publish = false

[dependencies]
mik-sdk = "=0.1.2"
