[package]
name = "cube_chase"
version = "0.1.0"
edition = "2021"
publish = false

[dependencies]
anyhow = "*"
env_logger = "*"
futures = "*"
gilrs = "*"
log = "*"
toio = "*"
tokio = { version = "*", features = ["full"] }
