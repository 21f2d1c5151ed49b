[package]
name = "order_engine"
version = "0.1.0"
edition = "2021"
publish = false

[dependencies]
cosmwasm-std = "=0.16.7"
cosmwasm-bignumber = "=2.2.0"
cw20 = "=0.8.1"
cw-asset = "=0.3.5"
terraswap = "=2.5.1"
prismswap = "=1.0.1"
schemars = "=0.8.22"
serde = "=1.0.229"
