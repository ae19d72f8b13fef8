[package]
name = "bcli"
version = "0.1.0"
edition = "2021"
publish = false

[dependencies]
anyhow = "*"
bitcoincore-rpc = "*"
cln-plugin = "*"
home = "*"
log = "*"
serde_json = "*"
tokio = { version = "*", features = ["rt-multi-thread", "macros", "io-std", "io-util", "time"] }
