[package]
name = "hyperws"
version = "0.1.0"
edition = "2021"
publish = false

[dependencies]
serde_json = "*"
anyhow = "*"
clap = { version = "*", features = ["derive"] }
futures = "*"
tokio = { version = "*", features = ["rt", "macros", "time", "sync"] }
url = "*"
yawc = "*"
