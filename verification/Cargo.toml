[package]
name = "uwu_companion"
version = "0.1.0"
edition = "2021"
publish = false

[dependencies]
chrono = "=0.4.45"
cron = "=0.17.0"
rand = "=0.8.8"
serde = { version = "=1.0.229", features = ["derive"] }
serde_json = "=1.0.154"
rusqlite = { version = "=0.41.1", features = ["bundled"] }
sysinfo = "=0.40.1"
battery = "*"
dotenvy = "*"
zip = { version = "*", default-features = false, features = ["deflate"] }
