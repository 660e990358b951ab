[package]
name = "ark_isep"
version = "0.1.0"
edition = "2021"
publish = false

[dependencies]
ark-bn254 = "=0.6.0"
ark-ec = "=0.6.0"
ark-ff = "=0.6.0"
ark-poly = "=0.6.0"
ark-serialize = "=0.6.0"
ark-std = { version = "=0.6.0", features = ["getrandom"] }
blake2 = "=0.11.0"
merlin = "=3.0.0"
