[package]
name = "aw_screenshot"
version = "0.1.0"
edition = "2021"
publish = false

[dependencies]
aw-models = "*"
chrono = "*"
clap = { version = "*", features = ["derive", "cargo"] }
image = { version = "*", default-features = false, features = ["webp"] }
reqwest = { version = "*", default-features = false, features = ["json"] }
screenshots = "*"
serde_json = "*"
tokio = { version = "*", features = ["macros", "rt-multi-thread", "time"] }
