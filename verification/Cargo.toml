[package]
name = "strecken_info"
version = "0.1.0"
edition = "2021"
publish = false

[dependencies]
chrono = "*"
serde = { version = "*", features = ["derive"] }
serde_json = "*"
reqwest = { version = "*", features = ["json"] }
tokio = { version = "*", features = ["macros", "rt-multi-thread", "net"] }
tokio-tungstenite = { version = "*", features = ["native-tls"] }
futures-util = "*"
