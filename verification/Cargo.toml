[package]
name = "voting_contract"
version = "0.1.0"
edition = "2021"
publish = false

[dependencies]
secret-cosmwasm-std = "*"
secret-cosmwasm-storage = "*"
secret-toolkit = { version = "*", default-features = false, features = ["storage"] }
serde = { version = "1", features = ["derive"] }
schemars = "0.8"
