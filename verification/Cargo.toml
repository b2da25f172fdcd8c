[package]
name = "song_search"
version = "0.1.0"
edition = "2021"
publish = false

[dependencies]
anyhow = "=1.0.104"
milli = "=0.1.0"
serde = { version = "=1.0.229", features = ["derive"] }
serde_json = "=1.0.154"
takecell = "=0.1.1"
teloxide = { version = "=0.9.2", features = ["macros", "auto-send"] }
tokio = { version = "=1.54.1", features = ["rt-multi-thread", "macros"] }
