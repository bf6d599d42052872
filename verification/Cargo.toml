[package]
name = "whois-rust"
version = "0.1.0"
edition = "2021"
publish = false

[dependencies]
async-std = "=1.13.2"
idna = "=0.5.0"
regex = "=1.13.1"
serde_json = "=1.0.154"
thiserror = "=1.0.69"
validators = "0.20"
