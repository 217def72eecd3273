[package]
name = "ethereum-poa-relay"
version = "0.1.0"
edition = "2021"
publish = false

[dependencies]
parity-scale-codec = "1.3"
web3 = { version = "0.10", default-features = false }
serde_json = "1"
log = "0.4"
env_logger = "0.7"
clap = { version = "2.33", features = ["yaml"] }
jsonrpsee-core = "*"
sp-core = "2.0.0"
sp-keyring = "2.0.0"
sp-runtime = "2.0.0"
frame-system = "2.0.0"
pallet-transaction-payment = "2.0.0"
node-primitives = "2.0.0"
