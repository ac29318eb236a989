[package]
name = "agent_bridge"
version = "0.1.0"
edition = "2021"
publish = false

[dependencies]
serde_json = "*"
serde = { version = "*", features = ["derive"] }
tokio = { version = "*", features = ["process", "io-util", "time", "rt", "macros", "sync"] }
reqwest = { version = "*", default-features = false, features = ["json"] }
uuid = { version = "*", features = ["v4"] }
chrono = "*"
