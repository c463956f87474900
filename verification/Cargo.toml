[package]
name = "frost_threshold"
version = "0.1.0"
edition = "2021"
publish = false

[dependencies]
frost-dalek = "=0.2.3"
curve25519-dalek = "=3.2.1"
rand = "=0.7.3"
clap = "=4.6.7"
