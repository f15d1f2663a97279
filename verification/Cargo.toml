[package]
name = "lighthouse"
version = "2.0.0"
edition = "2021"
publish = false

[dependencies]
bech32 = "0.9"
cosmwasm-schema = "1.5"
cosmwasm-std = "1.5"
cw-ownable = "0.5"
cw-storage-plus = "1.2"
cw-utils = "1.0"
cw2 = "1.1"
cw2981-royalties = "0.18"
data-encoding = "2"
schemars = "0.8"
serde = { version = "1", default-features = false, features = ["derive"] }
sha3 = "0.10"
thiserror = "1"
