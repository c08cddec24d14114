[package]
name = "pgwire_replication"
version = "0.1.0"
edition = "2021"
publish = false

[dependencies]
bytes = "1"
tokio = { version = "1", features = ["io-util", "net", "rt", "sync", "time"] }
tracing = "0.1"
