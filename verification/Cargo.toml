[package]
name = "foksal"
version = "0.1.0"
edition = "2021"
publish = false

[dependencies]
rand = "0.9"
globset = "0.4"
regex = "1"
unidecode = "0.3"
base64 = "0.22"
serde = { version = "1", features = ["derive"] }
serde_json = "1"
toml = "*"
clap = { version = "4", features = ["derive"] }
anyhow = "1"
thiserror = "2"
tokio-tungstenite = "*"
