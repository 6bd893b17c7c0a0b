[package]
name = "ardop_interface"
version = "0.1.0"
edition = "2021"
publish = false

[dependencies]
bytes = "=1.12.1"
futures = "=0.3.34"
async-std = "=1.13.2"
log = "=0.4.35"
nom = "=4.2.3"
regex-syntax = "=0.8.11"

[dev-dependencies]
regex = "=1.13.1"
