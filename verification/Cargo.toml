[package]
name = "cf_state_chain"
version = "0.1.0"
edition = "2021"
publish = false

[dependencies]
frame-support = "*"
frame-system = "*"

[dev-dependencies]
sp-core = "*"
