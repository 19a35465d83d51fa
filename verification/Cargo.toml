[package]
name = "pst"
version = "0.1.0"
edition = "2021"
publish = false

[dependencies]
anyhow = "1"
arboard = "3"
async-ssh2-lite = { version = "*", features = ["tokio"] }
async-trait = "0.1"
atty = "0.2"
clap = { version = "4", features = ["derive"] }
directories = "5"
env_logger = "0.11"
futures-util = "0.3"
image = { version = "0.25", default-features = false, features = ["bmp", "gif", "jpeg", "png", "tiff", "webp"] }
rand = "0.8"
reqwest = { version = "0.12", features = ["json", "multipart"] }
serde = { version = "1", features = ["derive"] }
serde_json = "1"
shellexpand = "3"
thiserror = "1"
tokio = { version = "1", features = ["full"] }
toml = "0.8"
