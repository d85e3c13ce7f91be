[package]
name = "z80dasm"
version = "0.1.0"
edition = "2021"
publish = false

[dependencies]
regex = "1"
