[package]
name = "thread_packer"
version = "0.1.0"
edition = "2021"
publish = false

[dependencies]
agave-geyser-plugin-interface = "=2.3.13"
anchor-lang = { version = "=0.31.2", features = ["init-if-needed"] }
bincode = "=1.3.3"
log = "=0.4.34"
solana-account-decoder = "=2.3.13"
solana-program = "=2.3.0"
solana-sdk = "=2.3.1"
