[package]
name = "relay"
version = "0.1.0"
edition = "2021"
publish = false

[dependencies]
chrono = { version = "*", features = ["serde"] }
config = "=0.15.27"
env_logger = "*"
futures-lite = "*"
lapin = "=4.12.0"
log = "*"
postgrest = "=1.6.0"
secrecy = { version = "=0.8.0", features = ["serde"] }
serde = { version = "*", features = ["derive"] }
serde-aux = "=4.7.0"
tokio = { version = "*", features = ["macros", "rt-multi-thread"] }
uuid = { version = "*", features = ["serde"] }
