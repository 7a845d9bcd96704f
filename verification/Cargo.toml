[package]
name = "pamplona"
version = "0.1.0"
edition = "2021"
publish = false

[dependencies]
bytes = "1"
tdf = "*"
tokio = { version = "1", features = ["full"] }
tokio-util = { version = "0.7", features = ["codec"] }
futures = "0.3"
uuid = { version = "1", features = ["v4"] }
parking_lot = "0.12"
serde = { version = "1", features = ["derive"] }
serde_json = "1"
chrono = { version = "0.4", features = ["serde"] }
reqwest = { version = "0.12", default-features = false, features = ["json", "rustls-tls"] }
dotenvy = "0.15"
thiserror = "2"
config = { version = "0.14", default-features = false, features = ["toml"] }
