[package]
name = "cdp_treasury"
version = "0.1.0"
edition = "2021"
publish = false

[dependencies]
sp-runtime = "=42.0.0"
sp-std = "=14.0.0"
frame-support = "=41.0.2"
frame-system = "=41.0.2"
orml-traits = "=1.5.0"
