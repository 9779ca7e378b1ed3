[package]
name = "solana-accountgen"
version = "0.1.0"
edition = "2021"
publish = false

[dependencies]
async-trait = "0.1"
base64 = "=0.22.1"
bincode = { version = "=2.0.1", features = ["serde"] }
borsh = "=1.8.1"
clap = { version = "4", features = ["derive"] }
hex = "=0.4.3"
serde = { version = "1", features = ["derive"] }
serde_json = "1"
sha2 = "=0.10.9"
solana-account = { version = "=2.2.1", features = ["serde"] }
solana-banks-client = "2"
solana-instruction = "2"
solana-program = "2"
solana-pubkey = { version = "=2.4.0", features = ["curve25519"] }
solana-rent = "=2.2.1"
solana-sdk = "2"
solana-sdk-ids = "=2.2.1"
thiserror = "1"
tokio = { version = "1", features = ["time"] }
