[package]
name = "nft_staking_contract"
version = "0.1.0"
edition = "2021"
publish = false

[dependencies]
solana-program = "=1.14.29"
spl-token = { version = "=3.5.0", features = ["no-entrypoint"] }
spl-associated-token-account = { version = "=1.0.5", features = ["no-entrypoint"] }
metaplex-token-metadata = { version = "=0.0.1", features = ["no-entrypoint"] }
