[package]
name = "voting_round"
version = "0.1.0"
edition = "2021"
publish = false

[dependencies]
blake2 = "0.10"
ed25519-dalek = "1"
rand = "0.8"
rand_core = { version = "0.5", features = ["getrandom"] }
pretty-hex = "0.3"
