[package]
name = "schnorr_proof"
version = "0.1.0"
edition = "2021"
publish = false

[dependencies]
elliptic-curve = { version = "0.13", features = ["arithmetic", "sec1"] }
k256 = { version = "0.13", features = ["arithmetic", "ecdsa", "schnorr", "serde", "sha256"] }
rand = "0.8"
rand_core = "0.6"
serde = { version = "1", features = ["derive"] }

[dev-dependencies]
digest = "0.10"
ecdsa = { version = "0.16", features = ["digest", "hazmat"] }
hex = "0.4"
