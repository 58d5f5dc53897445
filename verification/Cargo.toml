[package]
name = "bitcoind_manager"
version = "0.1.0"
edition = "2021"
publish = false

[dependencies]
bollard = "=0.21.1"
tokio = { version = "*", features = ["rt-multi-thread", "time"] }
futures-util = "*"
bitcoin = { version = "=0.32.102", features = ["serde"] }
serde = { version = "*", features = ["derive"] }
thiserror = "*"
tracing = "*"
redact = { version = "=0.1.11", features = ["serde"] }
