[package]
name = "chatpack"
version = "0.6.0"
edition = "2021"
publish = false

[dependencies]
chrono = "0.4"
regex = "1"
csv = "1"
serde = { version = "1", features = ["derive"] }
serde_json = "1"
clap = { version = "4", features = ["derive"] }
tokio = { version = "1", features = ["fs", "rt-multi-thread", "macros"] }
async-trait = "0.1"
rand = "0.8"
