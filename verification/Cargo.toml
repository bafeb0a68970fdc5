[package]
name = "vita-presence-rs"
version = "0.1.0"
edition = "2021"
publish = false

[dependencies]
scraper = "*"
serde = { version = "1", features = ["derive"] }
serde_json = "1"
reqwest = { version = "0.12", default-features = false, features = ["blocking", "multipart", "json", "rustls-tls"] }
discord-rich-presence = "1"
ctrlc = "3"
dirs = "*"
env_logger = "*"
log = "0.4"
