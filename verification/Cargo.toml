[package]
name = "anilist_push"
version = "0.1.0"
edition = "2021"
publish = false

[dependencies]
anyhow = "*"
clap = { version = "*", features = ["derive"] }
confy = "*"
reqwest = { version = "=0.13.5", default-features = false, features = ["form"] }
serde = { version = "*", features = ["derive"] }
serde_json = "=1.0.151"
tokio = { version = "*", features = ["macros", "rt-multi-thread"] }
