[package]
name = "fundraiser"
version = "0.1.0"
edition = "2021"
publish = false

[dependencies]
pinocchio = "*"
pinocchio-log = "*"
pinocchio-pubkey = "*"
pinocchio-system = "*"
pinocchio-token = "*"
