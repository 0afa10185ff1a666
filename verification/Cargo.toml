[package]
name = "cw-shitstrap"
version = "0.1.0"
edition = "2021"
publish = false

[dependencies]
cosmwasm-std = "=1.5.11"
cosmwasm-schema = "=1.5.11"
cw-denom = "=2.6.0"
cw20 = "=1.1.2"
cw2 = "=1.1.2"
cw-storage-plus = "=1.2.0"
cw-utils = "=1.0.3"
cw-ownable = "=0.5.1"
thiserror = "=1.0.69"
