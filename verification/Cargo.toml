[package]
name = "heartbeat"
version = "0.1.0"
edition = "2021"
publish = false

[dependencies]
dotenvy = "*"
duration-str = "*"
log = "*"
pretty_env_logger = "*"
reqwest = { version = "*", default-features = false }
serde = { version = "*", features = ["derive"] }
serde_yaml_ng = "*"
tokio = { version = "*", features = ["rt-multi-thread", "macros", "net", "process", "time"] }
