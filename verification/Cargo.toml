[package]
name = "verifier_lib"
version = "0.1.0"
edition = "2021"
publish = false

[dependencies]
solana-bn254 = "*"
ark-bn254 = "*"
ark-ff = "*"
sha2 = "*"

[dev-dependencies]
ark-ec = "*"
ark-serialize = "*"
