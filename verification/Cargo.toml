[package]
name = "chain_extension"
version = "0.1.0"
edition = "2021"
publish = false

[dependencies]
pallet-contracts-primitives = "=29.0.0"
sp-runtime = "=29.0.0"
