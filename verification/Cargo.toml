[package]
name = "aquatic"
version = "0.2.0"
edition = "2021"
publish = false

[dependencies]
anyhow = "=1.0.104"
arc-swap = "1"
blake3 = "=1.3.3"
crossbeam-channel = "=0.5.17"
getrandom = { version = "=0.2.17", features = ["std"] }
glommio = "=0.7.0"
log = "=0.4.35"
rustls = "=0.20.9"
rustls-pemfile = "=1.0.4"
