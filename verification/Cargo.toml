[package]
name = "lookup_table_proxy"
version = "0.1.0"
edition = "2021"
publish = false

[dependencies]
solana-address-lookup-table-interface = { version = "=2.2.2", features = ["bincode"] }
solana-instruction = "=2.3.3"
solana-pubkey = "=2.4.0"
solana-program = "=2.3.0"
