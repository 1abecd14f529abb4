[package]
name = "ledger_replay"
version = "0.1.0"
edition = "2021"
publish = false

[dependencies]
csv = "1"
serde = { version = "1", features = ["derive"] }
structopt = "0.3"
thiserror = "1"
