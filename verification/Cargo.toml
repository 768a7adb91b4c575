[package]
name = "bonbon"
version = "0.1.0"
edition = "2021"
publish = false

[dependencies]
anyhow = "1"
base64 = "0.13"
bincode = "1"
borsh = "0.9"
bs58 = "0.4"
bytes = "1"
chrono = "0.4"
clap = { version = "3", features = ["cargo"] }
fern = "0.6"
log = "0.4"
mpl-token-metadata = { version = "=1.3.3", features = ["no-entrypoint"] }
postgres = "0.19"
postgres-types = { version = "0.2", features = ["derive"] }
regex = "1"
solana-account-decoder = "=1.14.17"
solana-program = "=1.14.17"
solana-sdk = "=1.14.17"
solana-transaction-status = "=1.14.17"
spl-token = { version = "3.5", features = ["no-entrypoint"] }
spl-token-2022 = { version = "0.6", features = ["no-entrypoint"] }
tokio = { version = "1", features = ["rt", "macros"] }
tokio-postgres = "0.7"
