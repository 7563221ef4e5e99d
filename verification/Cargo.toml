[package]
name = "created_swarm"
version = "0.1.0"
edition = "2021"
publish = false

[dependencies]
rand = "0.8"
libp2p-identity = { version = "0.2", features = ["ed25519", "peerid", "rand"] }
ethabi = "18"
