[package]
name = "robo"
version = "0.1.0"
edition = "2021"
publish = false

[dependencies]
anyhow = "1"
async-tungstenite = { version = "*", features = ["tokio-runtime"] }
base64 = "0.13"
clap = { version = "3", features = ["derive"] }
druid = { version = "0.8", features = ["im"] }
enigo = "0.0.14"
futures = "0.3"
local-ip-address = "*"
qrcodegen = "1"
ring = "0.16"
serde = { version = "1", features = ["derive"] }
serde_json = "1"
tokio = { version = "1", features = ["rt-multi-thread", "net", "sync"] }
tracing = "0.1"
tracing-subscriber = "0.3"
