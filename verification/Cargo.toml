[package]
name = "daemon_config"
version = "0.1.0"
edition = "2021"
publish = false

[dependencies]
dirs = "=7.0.0"
serde = { version = "=1.0.229", features = ["derive"] }
structopt = "=0.3.26"
url = { version = "=2.5.8", features = ["serde"] }
