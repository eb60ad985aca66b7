[package]
name = "cw1620"
version = "0.1.0"
edition = "2021"
publish = false

[dependencies]
cosmwasm-schema = "=1.5.11"
cosmwasm-std = "=1.5.11"
cw2 = "=1.1.2"
cw20 = "=1.1.2"
cw-asset = "=3.1.1"
cw-storage-plus = "=1.2.0"
cw-utils = "=1.0.3"
schemars = "=0.8.22"
serde = { version = "=1.0.229", features = ["derive"] }
thiserror = "=1.0.69"
wynd-utils = "=0.4.1"
