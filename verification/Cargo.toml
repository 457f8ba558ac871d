[package]
name = "mc_forward"
version = "0.1.0"
edition = "2021"
publish = false

[dependencies]
anyhow = "1"
argh = "0.1"
tokio = { version = "1", features = ["net", "io-util", "rt-multi-thread", "macros"] }
tokio-socks = "0.5"
trust-dns-resolver = "0.22"
