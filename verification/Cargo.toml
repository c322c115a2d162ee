[package]
name = "plutus_core"
version = "0.1.0"
edition = "2021"
publish = false

[dependencies]
serde_json = "1"
flate2 = "1"
brotli = "*"
time = "0.3"
url = "2"
tokio = { version = "1", features = ["rt-multi-thread", "sync", "time", "net", "io-util", "macros"] }
tokio-tungstenite = "*"
futures-util = "0.3"
