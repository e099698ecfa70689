[package]
name = "quarry_mint_wrapper"
version = "0.1.0"
edition = "2021"
publish = false

[dependencies]
borsh = "1"
solana-program = "2"
