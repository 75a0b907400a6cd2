[package]
name = "gitgud"
version = "0.1.0"
edition = "2021"
publish = false

[dependencies]
clap = { version = "=4.6.7", features = ["derive", "env"] }
colored = "=3.1.1"
dirs = "=7.0.0"
octocrab = "=0.47.1"
rayon = "=1.12.0"
serde = { version = "=1.0.229", features = ["derive"] }
tokio = { version = "=1.53.2", features = ["rt-multi-thread"] }
toml = "=1.1.6"
