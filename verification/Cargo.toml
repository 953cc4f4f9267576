[package]
name = "escrow_pinocchio"
version = "0.1.0"
edition = "2021"
publish = false

[dependencies]
five8_const = "*"
pinocchio = "*"
pinocchio-log = "*"
pinocchio-system = "*"
pinocchio-token = "*"
