[package]
name = "ckb_bench"
version = "0.1.0"
edition = "2021"
publish = false

[dependencies]
ckb-hash = "*"
ckb-occupied-capacity = "*"
ckb-types = "*"
rand = "0.7"
log = "0.4"
serde = { version = "1", features = ["derive"] }
serde_json = "1"
