[package]
name = "jsontests"
version = "0.1.0"
edition = "2021"
publish = false

[dependencies]
evm = "=0.32.0"
ethereum = "=0.10.0"
primitive-types = "=0.10.1"
parity-crypto = { version = "=0.9.0", features = ["publickey"] }
parity-bytes = "=0.1.2"
ethjson = { version = "=0.1.0", features = ["test-helpers"] }
rlp = "=0.5.2"
sha3 = "=0.8.2"
lazy_static = "1"
serde = { version = "1", features = ["derive"] }
serde_json = "1"
