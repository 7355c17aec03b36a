[package]
name = "retry_rs"
version = "0.1.0"
edition = "2021"
publish = false

[dependencies]
rand = "0.9"
tokio = { version = "1", features = ["rt", "macros", "time", "sync", "fs"] }
async-trait = "0.1"
serde = { version = "1", features = ["derive"] }
