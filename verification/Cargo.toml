[package]
name = "schedules_direct"
version = "0.1.0"
edition = "2021"
publish = false

[dependencies]
backoff = "0.4"
rust-crypto = "0.2"
diesel = { version = "1.4", features = ["sqlite"] }
dotenv = "0.15"
reqwest = { version = "0.11", features = ["json", "gzip"] }
serde = { version = "1", features = ["derive"] }
serde_json = "1"
tokio = { version = "1", features = ["time"] }
