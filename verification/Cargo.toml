[package]
name = "basset_vault"
version = "0.1.0"
edition = "2021"
publish = false

[dependencies]
bigint = "=4.4.3"
cosmwasm-bignumber = "=2.2.0"
cosmwasm-std = "=0.16.7"
cosmwasm-storage = "=0.16.7"
cw-storage-plus = "=0.8.1"
cw20 = "=0.8.1"
terra-cosmwasm = "=2.2.0"
terraswap = "=2.4.1"
protobuf = "=2.28.0"
schemars = "=0.8.22"
serde = { version = "=1.0.229", default-features = false, features = ["derive"] }
