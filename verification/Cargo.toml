[package]
name = "beacon_types"
version = "0.1.0"
edition = "2021"
publish = false

[dependencies]
sha2 = "0.10"
serde = "1"
serde_derive = "1"
