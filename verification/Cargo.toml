[package]
name = "suss"
version = "0.1.0"
edition = "2021"
publish = false

[dependencies]
async-std = "1"
async-trait = "0.1"
blocking = "1"
chain-trans = "*"
futures-lite = "1"
humantime = "2"
nanorand = { version = "0.7", features = ["chacha"] }
tokio = { version = "1", features = ["net", "io-util", "time", "rt"] }
tracing = "0.1"
