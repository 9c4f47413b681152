[package]
name = "echokit"
version = "0.1.0"
edition = "2021"
publish = false

[dependencies]
anyhow = "=1.0.104"
bytes = "=1.12.1"
esp-idf-svc = "*"
futures-util = { version = "=0.3.34", features = ["sink"] }
http = "=1.5.0"
log = "=0.4.34"
rmp-serde = "=1.3.1"
serde = { version = "=1.0.229", features = ["derive"] }
serde_json = "=1.0.154"
tokio = { version = "=1.54.1", features = ["rt", "macros", "sync", "time", "net"] }
tokio-websockets = { version = "=0.13.3", features = ["client", "fastrand", "sha1_smol"] }
