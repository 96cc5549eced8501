[package]
name = "splitwise_cli"
version = "0.1.0"
edition = "2021"
publish = false

[dependencies]
clap = { version = "4", features = ["derive"] }
comfy-table = "7"
directories = "*"
dotenvy = "*"
http = "1"
reqwest = { version = "0.12", default-features = false, features = ["json", "rustls-tls"] }
serde = { version = "1", features = ["derive"] }
serde_json = "1"
serde_yaml = "0.9"
thiserror = "*"
tokio = { version = "1", features = ["macros", "rt-multi-thread"] }
toml = "*"
