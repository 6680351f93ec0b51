[package]
name = "serum_rust_cli"
version = "0.1.0"
edition = "2021"
publish = false

[dependencies]
anyhow = "1"
bytemuck = "=1.25.2"
clap = { version = "=3.2.25", features = ["derive"] }
debug_print = "1"
rand = "=0.7.3"
safe-transmute = "=0.11.3"
serum_dex = { version = "=0.5.4", features = ["no-entrypoint"] }
solana-program = "=1.18.26"
solana-sdk = "=1.18.26"
spl-associated-token-account = { version = "=1.0.5", features = ["no-entrypoint"] }
spl-token = { version = "=3.5.0", features = ["no-entrypoint"] }
