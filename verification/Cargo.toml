[package]
name = "charon"
version = "0.1.0"
edition = "2021"
publish = false

[dependencies]
serde = { version = "1", features = ["derive"] }
tokio = { version = "1", features = ["rt-multi-thread", "macros", "sync", "time", "process"] }
reqwest = { version = "0.12", default-features = false, features = ["json"] }
chrono = "0.4"
crossterm = "0.28"
ratatui = "0.29"
