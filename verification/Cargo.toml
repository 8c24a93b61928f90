[package]
name = "wqxemu"
version = "0.1.0"
edition = "2021"
publish = false

[dependencies]
anyhow = "1"
clap = { version = "4", features = ["derive"] }
env_logger = "*"
image = { version = "*", default-features = false, features = ["png"] }
log = "0.4"
minifb = "*"
