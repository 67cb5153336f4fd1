[package]
name = "mock_builder"
version = "0.1.0"
edition = "2021"
publish = false

[dependencies]
ssz_rs = "0.9.0"
ethereum_ssz = "0.5.4"
ethereum-types = "0.14"
serde = { version = "1", features = ["derive"] }
serde_json = "1"
hex = "0.4"
rand = "0.8"
parking_lot = "0.12"
tempfile = "3"
async-trait = "0.1"
