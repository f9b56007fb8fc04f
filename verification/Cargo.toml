[package]
name = "rpatchur"
version = "0.1.0"
edition = "2021"
publish = false

[dependencies]
flume = "*"
serde_json = "1"
open = "*"
log = "*"
simple_logger = "*"
anyhow = "1"
winapi = { version = "0.3", features = ["shellapi"] }
