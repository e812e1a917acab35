[package]
name = "taskmanager"
version = "0.1.0"
edition = "2021"
publish = false

[dependencies]
chrono = { version = "0.4", features = ["serde"] }
dirs = "*"
serde = { version = "1", features = ["derive"] }
serde_json = "1"
structopt = "0.3"
term_size = "0.3"
