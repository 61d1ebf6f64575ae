[package]
name = "solana_ffi"
version = "0.1.0"
edition = "2021"
publish = false

[dependencies]
bs58 = "=0.5.1"
libc = "=0.2.190"
solana-hash = { version = "=4.7.0", features = ["atomic"] }
solana-program = "=5.1.0"
solana-sdk = "=5.0.0"
tiny-bip39 = "=2.0.0"
