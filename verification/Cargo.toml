[package]
name = "dcp"
version = "0.4.1"
edition = "2021"
publish = false

[dependencies]
tar = "*"
docker-api = "*"
podman-api = "*"
tokio = { version = "*", features = ["macros", "rt-multi-thread"] }
futures-util = "*"
clap = "*"
anyhow = "*"
xdg = "*"
log = "*"
pretty_env_logger = "*"
