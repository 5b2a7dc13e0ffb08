[package]
name = "swap"
version = "0.1.0"
edition = "2021"
publish = false

[dependencies]
anyhow = "1"
dialoguer = "*"
serde = { version = "1", features = ["derive"] }
thiserror = "1"
tokio = { version = "1", features = ["rt", "macros", "time", "sync"] }
toml = "*"
url = { version = "2", features = ["serde"] }
uuid = { version = "*", features = ["v4"] }
