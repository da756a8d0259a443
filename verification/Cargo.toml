[package]
name = "hrmon"
version = "0.1.0"
edition = "2021"
publish = false

[dependencies]
itertools = "*"
anyhow = "*"
bluer = { version = "*", features = ["bluetoothd"] }
clap = { version = "*", features = ["derive"] }
env_logger = "*"
futures = "*"
log = "*"
metrics = "*"
metrics-exporter-prometheus = "*"
serde_json = "*"
tokio = { version = "*", features = ["macros", "rt", "time"] }
