[package]
name = "ludo"
version = "0.1.0"
edition = "2021"
publish = false

[dependencies]
ephemeral-vrf-sdk = "*"
