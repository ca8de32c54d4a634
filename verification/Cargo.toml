[package]
name = "denim"
version = "0.1.0"
edition = "2021"
publish = false

[dependencies]
cotton = "*"
serde_json = "1"
