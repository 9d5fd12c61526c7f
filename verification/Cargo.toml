[package]
name = "kinesis-tools-rust"
version = "0.1.0"
edition = "2021"
publish = false

[dependencies]
aws-config = "*"
aws-sdk-kinesis = "*"
base64 = "0.21"
clap = { version = "4", features = ["derive"] }
flate2 = "1"
serde_json = "1"
tokio = { version = "1", features = ["macros", "rt-multi-thread", "sync", "time"] }
