[package]
name = "veriflow"
version = "0.1.0"
edition = "2021"
publish = false

[dependencies]
sha2 = "0.10"
serde_json = "1"
serde = { version = "1", features = ["derive"] }
tokio = { version = "1", features = ["rt-multi-thread", "macros", "net", "fs", "io-util"] }
clap = { version = "4", features = ["derive"] }
thiserror = "1"
indicatif = "0.17"
tracing = "0.1"
tracing-subscriber = "0.3"
