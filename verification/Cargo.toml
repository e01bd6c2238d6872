[package]
name = "ivc_step"
version = "0.1.0"
edition = "2021"
publish = false

[dependencies]
sha2 = "0.10"
serde_cbor = "0.11"
tendermint-light-client-verifier = "*"

[dev-dependencies]
bincode = "1"
