[package]
name = "todo_scan"
version = "0.1.0"
edition = "2021"
publish = false

[dependencies]
anyhow = "*"
chrono = { version = "*", features = ["serde"] }
email_address = "*"
git2 = { version = "*", default-features = false }
serde = { version = "*", features = ["derive"] }
serde_json = "*"
walkdir = "*"
