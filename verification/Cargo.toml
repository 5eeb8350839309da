[package]
name = "seqgrep"
version = "0.1.0"
edition = "2021"
publish = false

[dependencies]
anyhow = "1"
clap = { version = "4", features = ["derive"] }
memchr = "2"
niffler = "*"
paraseq = "*"
parking_lot = "0.12"
regex = "1"
