[package]
name = "ibc_gamm"
version = "0.1.0"
edition = "2021"
publish = false

[dependencies]
cosmwasm-std = { version = "=1.5.11", features = ["ibc3"] }
cosmwasm-storage = "=1.5.2"
prost = "=0.12.6"
schemars = "=0.8.22"
serde = { version = "=1.0.229", features = ["derive"] }
