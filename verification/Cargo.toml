[package]
name = "td6"
version = "0.1.0"
edition = "2021"
publish = false

[dependencies]
serde_json = "1"
zstd = "0.13"
dotenvy = "*"
discord-rpc-client = "*"
