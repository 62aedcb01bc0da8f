[package]
name = "livepeer_monitor"
version = "0.1.0"
edition = "2021"
publish = false

[dependencies]
config = "0.10"
telegram-bot = "0.7"
telegram-bot-raw = "0.7"
tokio = { version = "0.2", features = ["full"] }
web3 = "0.10"
