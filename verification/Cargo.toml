[package]
name = "serene"
version = "0.1.0"
edition = "2021"
publish = false

[dependencies]
anyhow = "1"
bollard = "0.11"
env_logger = "0.9"
log = "0.4"
serde = { version = "1", features = ["derive"] }
serenity = "0.10"
thrussh-keys = "0.21"
tokio = { version = "1", features = ["full"] }
toml = "0.5"
