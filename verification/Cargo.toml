[package]
name = "imagind"
version = "0.1.0"
edition = "2021"
publish = false

[dependencies]
clearscreen = "=5.0.0"
colored = "=3.1.1"
reqwest = { version = "=0.13.5", features = ["json"] }
serde_json = "=1.0.154"
tokio = { version = "=1.54.1", features = ["macros", "rt-multi-thread"] }
