[package]
name = "greeting_store"
version = "0.1.0"
edition = "2021"
publish = false

[dependencies]
cosmwasm-std = "1"
cw-storage-plus = "1"
serde = { version = "1", features = ["derive"] }
schemars = "0.8"
