[package]
name = "ssce"
version = "0.1.0"
edition = "2021"
publish = false

[dependencies]
anyhow = "*"
bollard = "*"
chrono = "*"
clap = { version = "*", features = ["derive"] }
humantime-serde = "*"
prometheus-client = "*"
rust_decimal = { version = "*", features = ["serde-float"] }
serde = { version = "*", features = ["derive"] }
serde_json = "*"
serde_yaml = "*"
tokio = { version = "*", features = ["macros", "rt-multi-thread", "process", "io-util"] }
tracing = "*"
tracing-subscriber = "*"
walkdir = "*"
