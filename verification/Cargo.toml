[package]
name = "cln_extension"
version = "0.1.0"
edition = "2021"
publish = false

[dependencies]
anyhow = "=1.0.104"
bitcoin_hashes = "=0.11.0"
clap = { version = "4", features = ["derive", "env"] }
cln-plugin = "=0.1.4"
cln-rpc = "=0.1.2"
futures = "0.3"
prost = "0.11"
secp256k1 = "=0.24.3"
serde = { version = "1", features = ["derive"] }
serde_json = "1"
thiserror = "1"
tokio = { version = "1", features = ["full"] }
tokio-stream = "0.1"
tonic = "0.9"
tracing = "0.1"
