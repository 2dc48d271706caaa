[package]
name = "adventure"
version = "0.1.0"
edition = "2021"
publish = false

[dependencies]
backoff = "*"
sha2 = "*"

[dev-dependencies]
regex = "*"
