[package]
name = "manta_crypto"
version = "0.1.0"
edition = "2021"
publish = false

[dependencies]
aes = "=0.7.5"
ark-crypto-primitives = "=0.2.0"
ark-ec = "=0.2.0"
ark-ed-on-bls12-381 = "=0.2.0"
ark-ff = "=0.2.0"
ark-serialize = "=0.2.0"
ark-std = "=0.2.0"
blake2 = "=0.9.2"
generic-array = "=0.14.9"
rand_core = "=0.6.4"
x25519-dalek = { version = "=2.0.1", features = ["static_secrets"] }

[dev-dependencies]
rand = "=0.7.3"
rand_chacha = "=0.3.1"
