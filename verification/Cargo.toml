[package]
name = "transaction_etl"
version = "0.1.0"
edition = "2021"
publish = false

[dependencies]
csv = "1"
encoding_rs = "0.8"
encoding_rs_io = "0.1"
rusqlite = { version = "*", features = ["bundled"] }
serde_yaml = "0.9"
tabwriter = "1"
