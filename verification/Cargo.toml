[package]
name = "scratch_cloud"
version = "0.1.0"
edition = "2021"
publish = false

[dependencies]
tokio = { version = "1", features = ["full"] }
tokio-tungstenite = "*"
futures-util = { version = "*", features = ["sink"] }
serde = { version = "1", features = ["derive"] }
serde_json = "1"
ron = "*"
log = "*"
colog = "*"
thiserror = "*"
