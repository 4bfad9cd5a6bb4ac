[package]
name = "hdfs_proxy_tui"
version = "0.1.0"
edition = "2021"
publish = false

[dependencies]
rust-crypto = "0.2"
hex = "0.4"
reqwest = { version = "0.11", default-features = false }
tokio = { version = "1", features = ["rt-multi-thread", "sync", "time", "macros"] }
serde = { version = "1", features = ["derive"] }
serde_json = "1"
toml = "*"
eyre = "0.6"
log = "0.4"
tui = "0.19"
tui-logger = "0.8"
crossterm = "0.25"
