[package]
name = "te"
version = "0.1.0"
edition = "2021"
publish = false

[dependencies]
argin = "*"
console = "*"
lib-lexin = "*"
serde_json = "*"
