[package]
name = "requests"
version = "0.1.0"
edition = "2021"
publish = false

[dependencies]
rand = "0.8"
zipf = "7"
serde_json = "1"
serde = "1"
reqwest = { version = "0.11", default-features = false }
tokio = { version = "1", features = ["rt-multi-thread", "macros"] }
