[package]
name = "cipher_bench"
version = "0.1.0"
edition = "2021"
publish = false

[dependencies]
aes = "0.8"
log = "0.4"
xous = "*"
xous-ipc = "*"
