[package]
name = "tempo_rpc"
version = "0.1.0"
edition = "2021"
publish = false

[dependencies]
alloy = { version = "1.6", default-features = false, features = ["std", "consensus"] }
alloy-eips = "1.6"
alloy-primitives = "1.5"
alloy-rpc-types-eth = "1.6"
eyre = "0.6"
futures = "0.3"
reth-primitives-traits = "0.1"
tokio = { version = "1.49", features = ["sync", "time"] }
tracing = { version = "0.1", features = ["log"] }
