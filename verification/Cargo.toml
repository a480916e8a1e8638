[package]
name = "tiny_transaction_processor"
version = "0.1.0"
edition = "2021"
publish = false

[dependencies]
csv = "*"
env_logger = "*"
log = "*"
rust_decimal = "*"
serde = { version = "*", features = ["derive"] }
