[package]
name = "notes_planner_desktop"
version = "0.1.0"
edition = "2021"
publish = false

[dependencies]
chrono = "=0.4.45"
uuid = { version = "=1.29.0", features = ["v4"] }
getrandom = "=0.4.3"
serde = { version = "=1.0.229", features = ["derive"] }
serde_json = "=1.0.154"
rusqlite = { version = "=0.41.1", features = ["bundled"] }
