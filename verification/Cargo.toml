[package]
name = "weather"
version = "0.1.0"
edition = "2021"
publish = false

[dependencies]
anyhow = "1"
clap = { version = "4", features = ["derive"] }
confy = "0.5"
dialoguer = "0.11"
env_logger = "0.10"
human-panic = "1"
indicatif = "0.17"
log = "0.4"
proc-exit = "2"
reqwest = { version = "0.11", default-features = false, features = ["blocking", "json", "rustls-tls"] }
serde = { version = "1", features = ["derive"] }
thiserror = "1"
uom = "0.35"
url = "2"
