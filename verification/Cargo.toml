[package]
name = "synthtext"
version = "0.1.0"
edition = "2021"
publish = false

[dependencies]
anyhow = "=1.0.104"
clap = { version = "=3.2.25", features = ["derive"] }
directories = "=6.0.0"
futures = "=0.3.34"
owo-colors = "=4.4.0"
serde = { version = "=1.0.229", features = ["derive"] }
serde_json = "=1.0.154"
tap = "=1.0.1"
tokio = { version = "=1.54.1", features = ["macros", "rt-multi-thread", "process", "io-util"] }
