[package]
name = "lan_tracker"
version = "0.1.0"
edition = "2021"
publish = false

[dependencies]
anyhow = "=1.0.104"
clap = { version = "=4.6.7", features = ["derive"] }
log = "=0.4.34"
log4rs = "1"
named-lock = "=0.4.1"
serde = { version = "=1.0.229", features = ["derive"] }
sha2 = "=0.10.9"
toml = "=1.1.8"
uuid = { version = "=1.29.0", features = ["v4"] }
