[package]
name = "result_cache"
version = "0.1.0"
edition = "2021"
publish = false

[dependencies]
anyhow = "*"
glob = "*"
serde = { version = "*", features = ["derive"] }
serde_json = "*"
tokio = { version = "*", features = ["rt", "rt-multi-thread", "macros"] }
tokio-postgres = "*"
uuid = { version = "*", features = ["v4"] }
