[package]
name = "salon_core"
version = "0.1.0"
edition = "2021"
publish = false

[dependencies]
argon2 = "0.5"
chrono = "=0.4.45"
rusqlite = { version = "=0.32.1", features = ["bundled", "backup"] }
serde = { version = "=1.0.229", features = ["derive"] }
uuid = { version = "=1.29.0", features = ["v4"] }
