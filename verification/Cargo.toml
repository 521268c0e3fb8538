[package]
name = "sol_programs"
version = "0.1.0"
edition = "2021"
publish = false

[dependencies]
pinocchio = "=0.9.3"
pinocchio-pubkey = "=0.3.0"
pinocchio-token = "=0.4.0"
pinocchio-system = "=0.3.0"
pinocchio-log = "=0.5.1"
curve25519-dalek = { version = "4", default-features = false }
