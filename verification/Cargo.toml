[package]
name = "pinentry"
version = "0.1.0"
edition = "2021"
publish = false

[dependencies]
percent-encoding = "2"
zeroize = "1"
which = "*"
secrecy = "0.8"
