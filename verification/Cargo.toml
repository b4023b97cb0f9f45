[package]
name = "staking_chain_spec"
version = "0.1.0"
edition = "2021"
publish = false

[dependencies]
serde_json = "1"
sp-core = "*"
