[package]
name = "wallpaper-manager"
version = "0.1.0"
edition = "2021"
publish = false

[dependencies]
anyhow = "1"
clap = { version = "4", features = ["derive"] }
dirs = "*"
question = "*"
serde = { version = "1", features = ["derive"] }
serde_derive = "1"
thiserror = "*"
toml = "*"
