[package]
name = "scrt_finance"
version = "0.1.0"
edition = "2021"
publish = false

[dependencies]
schemars = "0.7"
secret-cosmwasm-std = "0.10"
secret-cosmwasm-storage = "0.10"
secret-toolkit = { version = "=0.2.0", features = ["crypto"] }
serde = { version = "1.0", features = ["derive"] }
