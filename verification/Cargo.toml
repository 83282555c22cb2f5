[package]
name = "ledger_engine"
version = "0.1.0"
edition = "2021"
publish = false

[dependencies]
dashmap = "*"
rust_decimal = "*"
csv = "*"
csv-async = { version = "*", features = ["tokio"] }
tokio = { version = "*", features = ["macros", "rt-multi-thread", "fs", "io-util", "sync"] }
futures = "*"
log = "*"
env_logger = "*"
serde = { version = "*", features = ["derive"] }
