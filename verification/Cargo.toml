[package]
name = "ed_compass"
version = "0.1.0"
edition = "2021"
publish = false

[dependencies]
anyhow = "1"
chrono = "0.4"
clap = { version = "4", features = ["derive"] }
crossbeam-channel = "0.5"
env_logger = "*"
flacenc = "*"
hound = "3"
log = "0.4"
png = "*"
serde = { version = "1", features = ["derive"] }
serde_json = "1"
toml = "*"
