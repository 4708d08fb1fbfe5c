[package]
name = "provider_runner"
version = "0.1.0"
edition = "2021"
publish = false

[dependencies]
anyhow = "=1.0.104"
clap = { version = "=4.6.7", features = ["derive"] }
dirs = "=7.0.0"
lettre = "=0.11.23"
portpicker = "=0.1.1"
serde = { version = "=1.0.229", features = ["derive"] }
tokio = { version = "=1.54.1", features = ["full"] }
url2 = "=0.0.6"
