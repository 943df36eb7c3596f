[package]
name = "transfer_pipeline"
version = "0.1.0"
edition = "2021"
rust-version = "1.95"
publish = false

[dependencies]
bs58 = "=0.5.1"
solana-keypair = "*"
solana-pubkey = "*"
solana-signature = "*"
solana-signer = "*"
solana-hash = "*"
solana-message = "*"
solana-transaction = { version = "*", features = ["wincode"] }
solana-system-interface = { version = "*", features = ["bincode"] }
solana-rpc-client = { version = "=4.2.2", default-features = false }
tokio = { version = "=1.53.2", features = ["macros", "rt-multi-thread"] }
futures = "=0.3.34"
serde = { version = "=1.0.229", features = ["derive"] }
serde_yaml = "=0.9.34"
