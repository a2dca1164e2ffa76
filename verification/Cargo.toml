[package]
name = "rust-miner"
version = "0.1.0"
edition = "2021"
publish = false

[dependencies]
anyhow = "1"
clap = { version = "4", features = ["derive"] }
env_logger = "0.10"
hex = "0.4"
log = "0.4"
tokio = { version = "1", features = ["macros", "rt-multi-thread", "time"] }
web3 = { version = "0.19", default-features = false, features = ["http"] }
