[package]
name = "db_lifecycle"
version = "0.1.0"
edition = "2021"
publish = false

[dependencies]
anyhow = "1"
console = "0.15"
dialoguer = { version = "0.11", default-features = false }
sqlx = { version = "0.8", default-features = false, features = ["runtime-tokio", "migrate", "any", "sqlite"] }
tokio = { version = "1", features = ["rt", "rt-multi-thread", "time"] }
