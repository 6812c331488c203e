[package]
name = "n1_encoder"
version = "0.1.0"
edition = "2021"
publish = false

[dependencies]
futures-lite = "*"
log = "*"
mirajazz = "*"
openaction = "*"
serde = { version = "*", features = ["derive"] }
simplelog = "*"
tokio = { version = "*", features = ["rt-multi-thread", "macros", "sync", "time"] }
tokio-util = "*"
