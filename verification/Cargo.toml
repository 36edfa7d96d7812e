[package]
name = "sacn_bridge"
version = "0.1.0"
edition = "2021"
publish = false

[dependencies]
tokio = { version = "*", features = ["rt-multi-thread", "macros", "sync", "time", "net", "fs"] }
async-std = "*"
btleplug = "*"
futures = "*"
serde = { version = "*", features = ["derive"] }
serde_json = "*"
uuid = "*"
ratatui = "*"
