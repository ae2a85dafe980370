[package]
name = "rusty_server"
version = "0.1.0"
edition = "2021"
publish = false

[dependencies]
tokio = { version = "1", features = ["net", "io-util", "rt", "rt-multi-thread", "macros", "fs", "time"] }
serde = { version = "1", features = ["derive"] }
serde_yaml = "0.9"
