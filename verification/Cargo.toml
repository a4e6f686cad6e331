[package]
name = "private_metadata"
version = "0.1.0"
edition = "2021"
publish = false

[dependencies]
curve25519-dalek = "3"
merlin = "3"

[dev-dependencies]
sha3 = "0.10"
