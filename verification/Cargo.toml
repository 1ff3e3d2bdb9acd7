[package]
name = "mantra"
version = "0.1.0"
edition = "2021"
publish = false

[dependencies]
anyhow = "1"
async-std = { version = "1", features = ["attributes"] }
crossterm = { version = "0.28", features = ["event-stream"] }
futures = "0.3"
ratatui = "0.29"
serde = { version = "1", features = ["derive"] }
serde_yaml = "0.9"
sqlx = { version = "0.8", default-features = false, features = ["runtime-async-std", "sqlite", "time", "migrate"] }
thiserror = "2"
time = { version = "0.3", features = ["formatting", "parsing", "macros", "local-offset"] }
xdg = "2"
