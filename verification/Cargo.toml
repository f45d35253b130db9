[package]
name = "java2php"
version = "0.1.0"
edition = "2021"
publish = false

[dependencies]
anyhow = "1"
clap = { version = "4", features = ["derive", "env"] }
color-eyre = "0.6"
ignore = "0.4"
indicatif = "0.17"
reqwest = { version = "0.12", default-features = false, features = ["json", "rustls-tls"] }
serde = { version = "1", features = ["derive"] }
tiktoken-rs = "0.6"
tokio = { version = "1", features = ["full"] }
