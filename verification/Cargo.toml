[package]
name = "boardgame_core"
version = "0.1.0"
edition = "2021"
publish = false

[dependencies]
rhai = "*"
serde = { version = "*", features = ["derive"] }
serde_json = "*"
rand = "*"
