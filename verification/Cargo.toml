[package]
name = "oroswap_contracts"
version = "0.1.0"
edition = "2021"
publish = false

[dependencies]
cosmwasm-std = { version = "=1.5.11", features = ["stargate"] }
cosmwasm-schema = "=1.5.11"
cw-utils = "=1.0.3"
cw-storage-plus = "=1.2.0"
cw2 = "=1.1.2"
cw20 = "=1.1.2"
cosmos-sdk-proto = { version = "=0.20.0", default-features = false }
serde = { version = "=1.0.229", features = ["derive"] }
thiserror = "=1.0.69"
