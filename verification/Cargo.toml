[package]
name = "did_offchain_trade"
version = "0.1.0"
edition = "2021"
publish = false

[dependencies]
parity-scale-codec = "*"
schnorrkel = "*"
