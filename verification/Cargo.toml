[package]
name = "chain_events"
version = "0.1.0"
edition = "2021"
publish = false

[dependencies]
ethers-providers = { version = "2", default-features = false, features = ["ws", "rustls"] }
ethers-core = "=2.0.14"
rand = "=0.8.8"
anyhow = "=1.0.104"
chrono = "=0.4.45"
dotenv = "=0.15.0"
fern = { version = "=0.6.2", features = ["colored"] }
log = "=0.4.34"
tokio = { version = "=1.53.2", features = ["rt-multi-thread", "macros", "sync", "time"] }
tokio-stream = "=0.1.19"
