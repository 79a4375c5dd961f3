[package]
name = "poe_indexer"
version = "0.1.0"
edition = "2021"
publish = false

[dependencies]
regex = "1"
serde = { version = "1", features = ["derive"] }
serde_json = "1"
hyper = "0.10"
postgres = "0.19"
postgres-types = { version = "0.2", features = ["derive"] }
time = "0.1"
