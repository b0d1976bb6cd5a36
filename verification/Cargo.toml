[package]
name = "drand_daemon"
version = "0.1.0"
edition = "2021"
publish = false

[dependencies]
ed25519-dalek = "1"
rand = "0.7"
clap = "4"
log = "0.4"
simple_logger = "4"
