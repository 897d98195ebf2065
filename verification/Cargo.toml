[package]
name = "peerlink"
version = "0.1.0"
edition = "2021"
publish = false

[dependencies]
bytes = "1"
regex = "1"
nanoid = "0.4"
dashmap = "6"
serde = { version = "1", features = ["derive"] }
bincode = "1"
ron = "*"
tokio = { version = "1", features = ["full"] }
tokio-util = { version = "*", features = ["codec", "net"] }
futures = "*"
netif = "*"
socket2 = "*"
thiserror = "*"
anyhow = "1"
tracing = "*"
tracing-subscriber = "*"
