[package]
name = "mongo_script"
version = "0.1.0"
edition = "2021"
publish = false

[dependencies]
async-trait = "0.1"
rquickjs = "*"
rquickjs-serde = "*"
serde = { version = "1", features = ["derive"] }
serde_json = "1"
tokio = { version = "1", features = ["macros", "rt", "rt-multi-thread", "sync", "time"] }
tokio-util = "0.7"
