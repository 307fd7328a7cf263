[package]
name = "ticket_store"
version = "0.1.0"
edition = "2021"

[dependencies]
thiserror = "1"
tokio = { version = "1", features = ["net", "io-util", "rt", "macros"] }
