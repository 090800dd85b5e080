[package]
name = "wasm_icq_invoker"
version = "0.1.0"
edition = "2021"
publish = false

[dependencies]
cosmwasm-schema = "=2.3.6"
cosmwasm-std = { version = "=2.3.6", features = ["stargate"] }
cw-storage-plus = "=2.0.0"
cw2 = "=2.0.0"
schemars = "=0.8.22"
serde = { version = "=1.0.229", default-features = false, features = ["derive"] }
