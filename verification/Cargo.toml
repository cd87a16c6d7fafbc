[package]
name = "cpace"
version = "0.1.0"
edition = "2021"
publish = false

[dependencies]
curve25519-dalek = "4"
strobe-rs = "*"
getrandom = "*"
