[package]
name = "commitgpt"
version = "0.1.0"
edition = "2021"
publish = false

[dependencies]
clap = { version = "4", features = ["derive"] }
config = { version = "*", default-features = false, features = ["toml"] }
dialoguer = "*"
indicatif = "*"
openai = "*"
serde = { version = "1", features = ["derive"] }
serde_valid = "*"
thiserror = "1"
tokio = { version = "1", features = ["macros", "rt-multi-thread"] }
