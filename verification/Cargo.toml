[package]
name = "carbon_credits"
version = "0.1.0"
edition = "2021"
publish = false

[dependencies]
fixed-hash = { version = "0.7", default-features = false }
frame-support = "3.0.0"
frame-system = "3.0.0"
pallet-timestamp = "3.0.0"
sp-core = "3.0.0"
sp-runtime = "3.0.0"
sp-std = "3.0.0"
