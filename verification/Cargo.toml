[package]
name = "cargo_hot"
version = "0.1.0"
edition = "2021"
publish = false

[dependencies]
libloading = "0.8"
signal-hook = "0.3"
