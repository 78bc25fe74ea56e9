[package]
name = "escrow"
version = "0.1.0"
edition = "2021"
publish = false

[dependencies]
pinocchio = "0.9"
pinocchio-associated-token-account = "0.2"
pinocchio-log = "0.5"
pinocchio-system = "0.3"
pinocchio-token = "0.4"
