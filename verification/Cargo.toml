[package]
name = "crystal"
version = "0.1.0"
edition = "2021"
publish = false

[dependencies]
irelia = "*"
reqwest = { version = "*", features = ["json"] }
serde_json = "*"
tokio = { version = "*", features = ["rt-multi-thread", "sync", "time", "macros"] }
