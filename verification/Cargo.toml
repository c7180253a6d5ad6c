[package]
name = "blueshift_escrow"
version = "0.1.0"
edition = "2021"
publish = false

[dependencies]
solana-address = { version = "=2.9.0", features = ["curve25519"] }
pinocchio = "=0.9.3"
pinocchio-token = "=0.4.0"
pinocchio-system = "=0.3.0"
pinocchio-associated-token-account = "=0.2.0"
pinocchio-log = "=0.5.1"
num-derive = "=0.5.1"
num-traits = "=0.2.19"
thiserror = "=2.0.21"
