[package]
name = "live_speed_timer"
version = "0.1.0"
edition = "2021"
publish = false

[dependencies]
crossterm = "0.22"
serde = { version = "1", features = ["derive"] }
serde_yaml = "0.9"
tokio = { version = "1", features = ["macros", "rt-multi-thread", "sync", "time"] }
