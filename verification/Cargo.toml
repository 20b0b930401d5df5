[package]
name = "multitask_reminder"
version = "0.1.0"
edition = "2021"
publish = false

[dependencies]
chrono = "0.4"
tokio = { version = "1", features = ["sync", "rt-multi-thread", "time", "macros"] }
rusqlite = { version = "*", features = ["bundled"] }
dirs = "*"
urlencoding = "2"
serde_json = "1"
