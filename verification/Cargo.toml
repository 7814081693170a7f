[package]
name = "rtvbp"
version = "0.1.0"
edition = "2021"
publish = false

[dependencies]
anyhow = "1"
async-trait = "0.1"
chrono = "0.4"
clap = { version = "4", features = ["derive"] }
codewandler-audio = "*"
convert_case = "*"
crossbeam-channel = "0.5"
ezsockets = { version = "*", features = ["tungstenite"] }
fluxrpc-core = "*"
indexmap = { version = "2", features = ["serde"] }
nanoid = "0.4"
openai-realtime = "*"
schemars = { version = "1", features = ["indexmap2"] }
serde = { version = "1", features = ["derive"] }
serde_json = { version = "1", features = ["preserve_order"] }
serde_yaml = "0.9"
tokio = { version = "1", features = ["full"] }
tracing = "0.1"
tracing-subscriber = "0.3"
url = "2"
