[package]
name = "repo_health"
version = "0.1.0"
edition = "2021"
publish = false

[dependencies]
octocrab = "=0.44.1"
ratatui = "=0.30.2"
tokio = { version = "=1.53.2", features = ["rt", "rt-multi-thread", "macros", "sync", "time"] }
