[package]
name = "mpris_block"
version = "0.1.0"
edition = "2021"
publish = false

[dependencies]
mpris = "*"
