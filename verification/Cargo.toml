[package]
name = "personalization"
version = "0.1.0"
edition = "2021"
publish = false

[dependencies]
font-kit = "*"
log = "*"

[dev-dependencies]
toml = "*"
