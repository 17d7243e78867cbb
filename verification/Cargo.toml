[package]
name = "gateway_relay"
version = "0.1.0"
edition = "2021"
publish = false

[dependencies]
anyhow = "=1.0.104"
async-std = "=1.13.2"
futures = "=0.3.34"
log = "=0.4.35"
parity-scale-codec = { version = "=2.3.1", features = ["derive"] }
sp-core = "43.0.0"
