[package]
name = "zkballot"
version = "0.1.0"
edition = "2021"
publish = false

[dependencies]
bulletproofs = "=4.0.0"
curve25519-dalek-ng = "=4.1.1"
merlin = "3"
rand = "0.8"
sha3 = "0.10"
memory-stats = "1"
ark-bls12-381 = "=0.4.0"
ark-ff = "=0.4.2"
ark-groth16 = "=0.4.0"
ark-relations = "=0.4.0"
ark-serialize = "=0.4.2"
ark-snark = "=0.4.0"
ark-std = "=0.4.0"
