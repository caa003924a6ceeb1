[package]
name = "counting-contract"
version = "0.3.0"
edition = "2021"
publish = false

[dependencies]
cosmwasm-schema = "2"
cosmwasm-std = "2"
cw-storage-plus = "2"
cw2 = "2"
serde = { version = "1", default-features = false, features = ["derive"] }
thiserror = "1"
