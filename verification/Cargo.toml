[package]
name = "sdfdesk_bridge"
version = "0.1.0"
edition = "2021"
publish = false

[dependencies]
serde_json = "1"
sodiumoxide = { version = "0.2", default-features = false, features = ["std"] }
tokio = { version = "1", features = ["rt", "net", "sync", "macros", "time"] }
tokio-tungstenite = "*"
futures-util = { version = "0.3", default-features = false, features = ["std", "sink"] }
scrap = "0.5"
clap = "4"
rpassword = "7"
async-trait = "0.1"
log = "0.4"
winapi = { version = "0.3", features = ["shellscalingapi"] }
