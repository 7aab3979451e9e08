[package]
name = "bundlrs"
version = "0.1.0"
edition = "2021"
publish = false

[dependencies]
regex = "=1.13.1"
idna = "=0.5.0"
sha2 = "=0.10.9"
uuid = { version = "=1.29.1", features = ["v4"] }
sauropod = "*"
