[package]
name = "jsonl_player"
version = "0.1.0"
edition = "2021"
publish = false

[dependencies]
anyhow = "*"
base64 = "*"
clap = "*"
flate2 = "*"
rodio = "*"
serde_json = "*"
tracing-subscriber = "*"
