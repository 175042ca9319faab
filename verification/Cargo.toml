[package]
name = "week_scheduler"
version = "0.1.0"
edition = "2021"
publish = false

[dependencies]
chrono = "0.4"
env_logger = "*"
log = "0.4"
tokio = { version = "1", features = ["macros", "rt-multi-thread", "sync", "time"] }
