[package]
name = "solana_api"
version = "0.1.0"
edition = "2021"
publish = false

[dependencies]
actix-web = "4"
base64 = "0.22"
bs58 = "0.5"
chrono = "0.4"
dotenv = "0.15"
env_logger = "0.11"
indexmap = { version = "2", features = ["serde"] }
serde = { version = "1", features = ["derive"] }
serde_json = "1"
solana-sdk = "1.18"
spl-token = "4"

[dev-dependencies]
spl-associated-token-account = "2"
