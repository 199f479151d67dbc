[package]
name = "behavior_tree"
version = "0.1.0"
edition = "2021"
publish = false

[dependencies]
actify = "=0.1.4"
anyhow = "=1.0.104"
async-trait = "0.1"
futures = "=0.3.34"
futures-util = "=0.3.34"
log = "=0.4.35"
serde = { version = "=1.0.229", features = ["derive"] }
serde_json = "=1.0.154"
simple-xml-builder = "=1.1.0"
thiserror = "=1.0.69"
tokio = { version = "=1.54.1", features = ["macros", "net", "rt", "rt-multi-thread", "sync", "time"] }
tokio-tungstenite = "=0.20.1"
url = "=2.5.8"
uuid = { version = "=1.29.0", features = ["rng", "v1"] }
