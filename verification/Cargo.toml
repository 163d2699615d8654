[package]
name = "serde_multi"
version = "0.1.0"
edition = "2021"
publish = false

[dependencies]
serde = "1"
serde_json = "1"
serde_cbor = "0.11"
bincode = "1"
rmp-serde = "1"
ron = "0.8"
toml = "0.5"
serde-xml-rs = "0.6"
