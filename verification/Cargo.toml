[package]
name = "dhat-to-flamegraph"
version = "0.1.0"
edition = "2021"
publish = false

[dependencies]
clap = { version = "4", features = ["derive"] }
inferno = { version = "0.11", default-features = false }
iter_tools = "*"
serde = { version = "1", features = ["derive"] }
serde_json = "1"
