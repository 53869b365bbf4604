[package]
name = "chex"
version = "0.1.0"
edition = "2021"
publish = false

[dependencies]
async-broadcast = "*"
log = "*"

[dev-dependencies]
futures-lite = "*"
