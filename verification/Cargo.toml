[package]
name = "scilla"
version = "0.1.0"
edition = "2021"
rust-version = "1.95.0"
publish = false

[dependencies]
anyhow = "1"
bincode = "1"
solana-clock = { version = "=4.0.0", features = ["serde"] }
solana-hash = "=4.7.0"
solana-instruction = "=4.0.0"
solana-instruction-error = "=2.5.0"
solana-keypair = "=3.1.2"
solana-loader-v3-interface = { version = "=7.0.0", features = ["bincode", "serde"] }
solana-message = "=3.1.0"
solana-nonce = { version = "=3.4.0", features = ["serde"] }
solana-pubkey = "=4.4.0"
solana-rpc-client = { version = "=3.1.14", default-features = false }
solana-rpc-client-api = "=3.1.14"
solana-sdk-ids = "=3.1.0"
solana-signature = "=3.6.0"
solana-stake-interface = { version = "=5.1.1", features = ["bincode", "serde"] }
solana-transaction = { version = "=3.1.0", features = ["bincode"] }
