[package]
name = "config_agent"
version = "0.1.0"
edition = "2021"
publish = false

[dependencies]
anyhow = "1"
clap = { version = "4", features = ["derive"] }
directories = "5"
log = "0.4"
rand = "0.8"
ssh-key = { version = "0.6", features = ["ed25519"] }
