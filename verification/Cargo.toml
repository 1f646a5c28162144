[package]
name = "sanup"
version = "0.1.0"
edition = "2021"
publish = false

[dependencies]
chrono = "*"
dirs = "*"
fern = { version = "*", features = ["colored"] }
log = "*"
ratatui = "*"
serde = { version = "*", features = ["derive"] }
toml = "*"
uuid = { version = "*", features = ["v4", "serde"] }
