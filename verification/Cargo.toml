[package]
name = "zrpc"
version = "0.1.0"
edition = "2021"
publish = false

[dependencies]
anyhow = "*"
async-lock = "*"
async-tungstenite = "*"
futures = "*"
log = "*"
postage = "*"
