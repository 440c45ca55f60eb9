[package]
name = "test_utils_solana"
version = "0.1.0"
edition = "2021"
publish = false

[dependencies]
rand = "=0.9.5"
port_check = "=0.3.0"
bs58 = "=0.5.1"
base64 = "=0.23.1"
zstd = "=0.14.0"
serde_json = "=1.0.151"
bincode = "=1.3.3"
solana-transaction = { version = "=5.1.0", features = ["serde"] }
solana-transaction-error = "=4.1.0"
solana-message = "=5.1.0"
solana-account = "=5.1.0"

[dev-dependencies]
solana-address = "=2.9.0"
solana-hash = "=4.7.0"
solana-signature = "=3.6.0"
