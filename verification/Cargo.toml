[package]
name = "rustmail"
version = "0.1.0"
edition = "2021"
publish = false

[dependencies]
anyhow = "*"
clap = { version = "*", features = ["derive"] }
dirs = "*"
env_logger = "*"
hex = "*"
log = "*"
serde = { version = "*", features = ["derive"] }
sha1 = "*"
toml = "*"
