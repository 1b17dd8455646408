[package]
name = "js_core"
version = "0.1.0"
edition = "2021"
publish = false

[dependencies]
uuid = { version = "=1.29.0", features = ["v4"] }
tokio = { version = "=1.54.1", features = ["rt", "sync"] }
anyhow = "=1.0.104"
clap = { version = "=4.6.7", features = ["derive"] }
