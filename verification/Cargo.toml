[package]
name = "bookmarks_client"
version = "0.1.0"
edition = "2021"
publish = false

[dependencies]
clap = { version = "*", features = ["derive"] }
reqwest = "*"
serde_json = "*"
tokio = { version = "*", features = ["macros", "rt-multi-thread"] }
