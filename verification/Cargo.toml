[package]
name = "netscope_scan"
version = "0.1.0"
edition = "2021"
publish = false

[dependencies]
clap = { version = "4", features = ["derive"] }
serde = { version = "1", features = ["derive"] }
serde_derive = "1"
toml = "0.8"
dirs = "5"
rlimit = "0.10"
serde_json = "1"
futures = "0.3"
log = "0.4"
env_logger = "0.11"
