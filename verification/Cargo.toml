[package]
name = "rendercore"
version = "0.1.0"
edition = "2021"
publish = false

[dependencies]
regex = "*"
semver = "*"
crossbeam = "*"

[dependencies.image]
version = "*"
default-features = false
features = ["png"]
