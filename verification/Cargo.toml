[package]
name = "pool-sync"
version = "0.1.0"
edition = "2021"
publish = false

[dependencies]
alloy = { version = "0.3", features = ["providers", "provider-http", "network", "rpc-types", "contract", "sol-types", "dyn-abi"] }
alloy-sol-types = "0.8"
anyhow = "1"
dotenv = "0.15"
futures = "0.3"
serde = { version = "1", features = ["derive"] }
serde_json = "1"
tokio = { version = "1", features = ["rt-multi-thread", "macros"] }
