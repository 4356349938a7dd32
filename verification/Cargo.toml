[package]
name = "scioly_bot"
version = "0.1.0"
edition = "2021"
publish = false

[dependencies]
rust-fuzzy-search = "*"
fuzzydate = "*"
chrono = "0.4"
yaml-rust2 = "*"
rust_search = "*"
serde = { version = "1", features = ["derive"] }
serde_json = "1"
poise = "0.6.2"
tokio = { version = "1", features = ["macros", "rt-multi-thread", "time"] }
google-drive3 = "6.0.0"
google-docs1 = "6.0.0"
google-sheets4 = "6.0.0"
