[package]
name = "mc_update_watcher"
version = "0.1.0"
edition = "2021"
publish = false

[dependencies]
chrono = "=0.4.45"
reqwest = { version = "=0.12.28", features = ["blocking", "json"] }
serde_json = "=1.0.154"
