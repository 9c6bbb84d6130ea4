[package]
name = "frost_ffi"
version = "0.2.0"
edition = "2021"
publish = false

[dependencies]
frost-core = { version = "=2.2.0", features = ["internals"] }
frost-secp256k1-tr = { version = "=2.2.0", features = ["serde"] }
hex = "=0.4.3"
rand = "=0.8.8"
serde_json = "=1.0.154"
