[package]
name = "blast"
version = "0.1.0"
edition = "2021"
publish = false

[dependencies]
hex = "=0.4.3"
serde = { version = "=1.0.229", features = ["derive"] }
serde_json = "=1.0.154"
tokio = { version = "=1.54.1", features = ["full"] }
ratatui = "=0.28.1"
tonic = "=0.12.3"
prost = "=0.13.5"
anyhow = "=1.0.104"
log = "=0.4.35"
simplelog = "=0.12.2"
flate2 = "=1.1.10"
tar = "=0.4.46"
bitcoincore-rpc = "=0.19.0"
simln-lib = "=0.1.0"
tokio-util = "=0.7.20"
