[package]
name = "oxi_tokens"
version = "0.1.0"
edition = "2021"
publish = false

[dependencies]
sha2 = "0.10"
hex = "0.4"
serde = { version = "1", features = ["derive"] }
serde_json = "1"
actix-web = "4"
actix-files = "0.6"
mongodb = "2.8"
tokio = { version = "1", features = ["sync", "macros", "rt-multi-thread"] }
env_logger = "0.11"
