[package]
name = "task_reminder"
version = "0.1.0"
edition = "2021"
publish = false

[dependencies]
base64 = "0.22"
chrono = "0.4"
cron = "*"
dirs-next = "2"
fs2 = "0.4"
reqwest = { version = "0.12", default-features = false, features = ["blocking"] }
rusqlite = { version = "*", features = ["bundled"] }
serde = { version = "1", features = ["derive"] }
serde_json = "1"
thiserror = "1"
tokio = { version = "1", features = ["rt", "rt-multi-thread", "time"] }
uuid = { version = "1", features = ["v4"] }
