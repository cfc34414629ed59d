[package]
name = "aokiji"
version = "0.1.0"
edition = "2021"
publish = false

[dependencies]
hex = "0.4.3"
serde = { version = "1", features = ["derive"] }
serde_json = "1"
tokio = { version = "1", features = ["rt-multi-thread", "macros", "time", "fs"] }
dirs = "6.0.0"
reqwest = { version = "0.12", features = ["json"] }
