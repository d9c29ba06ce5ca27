[package]
name = "blizzardup_aws"
version = "0.1.0"
edition = "2021"
publish = false

[dependencies]
clap = { version = "*", default-features = false, features = ["std", "help", "usage"] }
crossterm = { version = "*", default-features = false }
dialoguer = { version = "*", default-features = false }
env_logger = { version = "*", default-features = false }
log = "*"
rust-embed = "*"
serde = { version = "*", features = ["derive"] }
serde_yaml = "*"
signal-hook = "*"
tokio = { version = "*", features = ["rt-multi-thread"] }
