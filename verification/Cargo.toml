[package]
name = "weibo"
version = "0.1.0"
edition = "2021"
publish = false

[dependencies]
bytes = "1"
env_logger = "*"
futures = "0.3"
log = "0.4"
rand = "*"
regex = "1"
reqwest = { version = "0.12", features = ["cookies"] }
serde = { version = "1", features = ["derive"] }
serde_json = "1"
tokio = { version = "1", features = ["macros", "rt-multi-thread"] }
