[package]
name = "nft_staking"
version = "0.1.0"
edition = "2021"
publish = false

[dependencies]
anchor-lang = { version = "0.25.0", features = ["init-if-needed"] }
anchor-spl = "0.25.0"
mpl-token-metadata = { version = "1.4.1", features = ["no-entrypoint"] }
