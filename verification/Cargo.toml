[package]
name = "deploy_agent"
version = "0.1.0"
edition = "2021"
publish = false

[dependencies]
anyhow = "1"
async-std = { version = "1", features = ["attributes"] }
docker-api = "*"
fern = "0.6"
humantime = "2"
log = "0.4"
once_cell = "1"
owo-colors = "3"
rand = "0.8"
serde = { version = "1", features = ["derive"] }
serde_json = "1"
tide = "0.16"
