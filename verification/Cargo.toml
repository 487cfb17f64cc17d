[package]
name = "tatl"
version = "0.1.0"
edition = "2021"
publish = false

[dependencies]
clap = { version = "=4.6.7", features = ["derive"] }
color-eyre = "=0.6.5"
crossterm = "=0.28.1"
futures = "=0.3.34"
git2 = { version = "=0.21.0", default-features = false }
owo-colors = "=4.4.0"
ratatui = "=0.29.0"
rig-core = "0.6"
schemars = "0.8"
serde = { version = "=1.0.229", features = ["derive"] }
tokio = { version = "=1.54.1", features = ["macros", "rt-multi-thread", "time"] }
