[package]
name = "crypto_rs"
version = "0.1.0"
edition = "2021"
publish = false

[dependencies]
age = "0.10"
hmac-sha512 = "1"
rand = "0.8"
anyhow = "1"
camino = "1"
dirs = "5"
inquire = "0.7"
owo-colors = "4"
