[package]
name = "neuronveil"
version = "0.1.0"
edition = "2021"
publish = false

[dependencies]
ring = "*"
serde = { version = "*", features = ["derive"] }
serde_json = "*"
tokio = { version = "*", features = ["full"] }
s2n-quic = "*"
anyhow = "*"
log = "*"
flexi_logger = "*"
clap = { version = "*", features = ["derive"] }
image = "*"
