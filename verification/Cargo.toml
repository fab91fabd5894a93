[package]
name = "surveyor"
version = "0.1.0"
edition = "2021"
publish = false

[dependencies]
home = "=0.5.12"
git2 = "=0.21.0"
slack-hook = { version = "=0.9.1", features = ["blocking"] }
serde = { version = "=1.0.229", features = ["derive"] }
structopt = "=0.3.26"
toml = "=1.1.7"
