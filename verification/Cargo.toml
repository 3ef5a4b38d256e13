[package]
name = "address_gen"
version = "0.1.0"
edition = "2021"
publish = false

[dependencies]
anyhow = "1"
bip39 = "2"
bs58 = "0.5"
clap = { version = "4", features = ["derive"] }
csv = "1"
ethers-signers = "2"
rand = "0.8"
solana-sdk = "3"
