[package]
name = "heimdall"
version = "0.1.0"
edition = "2021"
publish = false

[dependencies]
bs58 = "*"
chrono = { version = "*", default-features = false, features = ["clock"] }
clickhouse = "*"
env_logger = "*"
log = "*"
rdkafka = "*"
serde = { version = "*", features = ["derive"] }
serde_json = "*"
solana-pubkey = "*"
tokio = { version = "*", features = ["rt-multi-thread", "macros", "signal", "time"] }
