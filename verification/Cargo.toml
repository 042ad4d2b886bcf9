[package]
name = "labels"
version = "0.1.0"
edition = "2021"
publish = false

[dependencies]
clap = "4"
reqwest = { version = "0.11", features = ["json"] }
serde = { version = "1", features = ["derive"] }
serde_json = "1"
terminal-spinners = "*"
tokio = { version = "1", features = ["macros", "rt-multi-thread"] }
