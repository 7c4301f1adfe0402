[package]
name = "openchat_core"
version = "0.1.0"
edition = "2021"
publish = false

[dependencies]
home = "*"
serde_json = "*"
tokio = { version = "*", features = ["macros", "rt-multi-thread", "process", "io-util", "time", "sync"] }
reqwest = { version = "*", default-features = false, features = ["json"] }
