[package]
name = "tunnel_supervisor"
version = "0.1.0"
edition = "2021"
publish = false

[dependencies]
tokio-util = "=0.7.20"
tokio = { version = "=1.54.1", features = ["process", "rt", "rt-multi-thread", "sync", "macros", "io-util", "io-std"] }
serde = { version = "=1.0.229", features = ["derive"] }
serde_json = "=1.0.154"
directories = "=6.0.0"
podman-api = "*"
reqwest = { version = "*", features = ["blocking"] }
