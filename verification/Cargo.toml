[package]
name = "cao_profile"
version = "0.1.0"
edition = "2021"

[dependencies]
crossbeam-channel = "*"
curl = "*"
