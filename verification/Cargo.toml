[package]
name = "cosm_client"
version = "0.1.0"
edition = "2021"
publish = false

[dependencies]
anyhow = "*"
cosmos-sdk-proto = "*"
cosmrs = { version = "*", features = ["rpc", "cosmwasm"] }
prost = "*"
tokio = { version = "*", features = ["rt"] }
