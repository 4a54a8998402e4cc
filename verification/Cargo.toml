[package]
name = "t22"
version = "0.1.0"
edition = "2021"
publish = false

[dependencies]
anchor-lang = "=1.2.2"
spl-token-confidential-transfer-proof-extraction = "=0.5.1"

[dependencies.anchor-spl]
version = "=1.2.2"
default-features = false
features = ["solana-v3", "mint", "token", "token_2022", "token_2022_extensions"]

[dev-dependencies]
bytemuck = "=1.25.2"
litesvm = "=0.10.0"
solana-compute-budget-interface = "=3.1.0"
solana-keypair = "=3.1.2"
solana-message = "=3.1.0"
solana-signer = "=3.0.1"
solana-system-interface = "=2.0.0"
solana-transaction = "=3.1.0"
solana-zk-sdk = "=4.0.0"
spl-token-confidential-transfer-proof-generation = "=0.5.1"
