[package]
name = "solana_program_simulator"
version = "0.1.0"
edition = "2021"
publish = false

[dependencies]
anchor-lang = "0.31"
borsh = "1"
solana-program = "2"
solana-sdk = "2"
