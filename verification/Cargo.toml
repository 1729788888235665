[package]
name = "tinyserve"
version = "0.1.0"
edition = "2021"
publish = false

[dependencies]
scopeguard = "1"
