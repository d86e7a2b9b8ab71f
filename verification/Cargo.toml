[package]
name = "aanyx"
version = "0.1.0"
edition = "2021"
publish = false

[dependencies]
libloading = "0.8"
paste = "1"
