[package]
name = "identity_registry"
version = "0.1.0"
edition = "2021"
publish = false

[dependencies]
casper-contract = { version = "=5.1.1", default-features = false }
casper-types = "=6.1.0"
getrandom = { version = "=0.2.17", features = ["custom"] }
