[package]
name = "cosmos_fanout"
version = "0.1.0"
edition = "2021"
publish = false

[dependencies]
cosmwasm-std = "=3.0.10"
cw-storage-plus = "=3.0.1"
cw2 = "=3.0.0"
semver = "=1.0.28"
serde = { version = "=1.0.229", features = ["derive"] }
schemars = "=0.8.22"
