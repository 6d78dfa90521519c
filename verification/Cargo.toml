[package]
name = "bank_ledger"
version = "0.1.0"
edition = "2021"
publish = false

[dependencies]
actix-web = "*"
chrono = "*"
jsonwebtoken = "*"
rusqlite = { version = "*", features = ["bundled"] }
serde = { version = "*", features = ["derive"] }
validator = { version = "*", features = ["derive"] }
