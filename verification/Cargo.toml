[package]
name = "multiset_hash"
version = "0.1.0"
edition = "2021"
publish = false

[dependencies]
curve25519-dalek = { version = "*", features = ["digest"] }
digest = "*"
sha2 = "*"
