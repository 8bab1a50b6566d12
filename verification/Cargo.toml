[package]
name = "astroport_dca"
version = "0.1.0"
edition = "2021"
publish = false

[dependencies]
cosmwasm-std = "1.0"
astroport = "1"
cw2 = "0.13"
cw20 = "0.13"
cw-storage-plus = "0.13"
serde = { version = "1", features = ["derive"] }
thiserror = "1"
