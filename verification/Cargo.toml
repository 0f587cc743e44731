[package]
name = "flux-aggregator"
version = "0.1.0"
edition = "2021"
publish = false

[dependencies]
cosmwasm-std = "0.14"
cw-storage-plus = "0.6"
cw20 = "0.6"
schemars = "0.8"
serde = { version = "1", default-features = false, features = ["derive"] }
thiserror = "1"
