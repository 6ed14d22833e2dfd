[package]
name = "silamoney"
version = "0.1.0"
edition = "2021"
publish = false

[dependencies]
eth_checksum = "*"
hex = "0.4"
lazy_static = "1"
log = "0.4"
reqwest = { version = "0.12", default-features = false, features = ["json"] }
secp256k1 = { version = "0.27", features = ["recovery"] }
serde = { version = "1", features = ["derive"] }
serde_json = "1"
sha3 = "0.10"
uuid = { version = "1", features = ["v4"] }
web3 = { version = "0.19", default-features = false }
