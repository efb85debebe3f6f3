[package]
name = "submit_block"
version = "0.1.0"
edition = "2021"
publish = false

[dependencies]
ckb-hash = { version = "=0.121.0", default-features = false, features = ["ckb-contract"] }

[dev-dependencies]
ckb-merkle-mountain-range = "0.3"
