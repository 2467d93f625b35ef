[package]
name = "devmode_engine"
version = "0.1.0"
edition = "2021"
publish = false

[dependencies]
rand = "0.4"
sawtooth-sdk = "*"
log = "0.4"
