[package]
name = "state_adapter"
version = "0.1.0"
edition = "2021"
publish = false

[dependencies]
blockifier = "=0.8.0"
cairo-vm = "=1.0.1"
log = "=0.4.34"
starknet_api = "=0.13.0-rc.1"
starknet-types-core = "=0.1.5"
