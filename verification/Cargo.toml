[package]
name = "enclave"
version = "0.1.0"
edition = "2021"
publish = false

[dependencies]
sgx_types = "*"
sgx_tseal = "*"
sgx_rand = "*"
sgx_urts = "*"
serde_cbor = "*"
serde = { version = "1", features = ["derive"] }
log = "*"
env_logger = "*"
lazy_static = "*"
dirs = "*"
