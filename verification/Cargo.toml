[package]
name = "vanity_grind"
version = "0.1.0"
edition = "2021"
publish = false

[dependencies]
sha2 = "0.10"
fd_bs58 = "*"
rand = "0.8"
solana-pubkey = "*"
reqwest = { version = "0.12", default-features = false, features = ["blocking"] }
clap = { version = "4", features = ["derive"] }
logfather = "*"
num-format = "0.4"
rayon = "1"
serde_json = "1"
