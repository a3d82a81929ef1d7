[package]
name = "oreo"
version = "0.1.0"
edition = "2021"
publish = false

[dependencies]
color-name = "*"
serenity = "=0.11.7"
poise = "=0.5.7"
tokio = { version = "1", features = ["macros", "rt-multi-thread"] }
serde = { version = "1", features = ["derive"] }
serde_json = "1"
