[package]
name = "statusengine"
version = "0.1.0"
edition = "2021"
publish = false

[dependencies]
serde_json = "*"
ratatui = { version = "*", default-features = false }
tokio = { version = "*", features = ["macros", "rt-multi-thread", "process", "io-util", "time"] }
