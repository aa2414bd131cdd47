[package]
name = "fiat_fees"
version = "0.1.0"
edition = "2021"
publish = false

[dependencies]
ethabi = "=18.0.0"
jsonrpc-core = "=18.0.0"
jsonrpc-derive = "=18.0.0"
parity-scale-codec = { version = "=3.7.5", features = ["derive"] }
serde = { version = "=1.0.229", features = ["derive"] }

[dev-dependencies]
rand = "=0.8.8"
