[package]
name = "common"
version = "0.1.0"
edition = "2021"
publish = false

[dependencies]
async-trait = "0.1"
ractor = "0.15"
serde = { version = "1", features = ["derive"] }
socketcan = "3"
tokio = { version = "1", features = ["sync", "rt", "rt-multi-thread", "macros", "time"] }
