[package]
name = "ursus"
version = "0.1.0"
edition = "2021"
publish = false

[dependencies]
cairo-air = "*"
cairo-vm = "*"
camino = "*"
log = "*"
num-bigint = "*"
serde_json = "*"
stwo-cairo-adapter = "*"
stwo-cairo-prover = "*"
