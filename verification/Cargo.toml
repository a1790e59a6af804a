[package]
name = "ansorum"
version = "0.1.0"
edition = "2021"
publish = false

[dependencies]
anstream = "0.6"
anstyle = "1"
chrono = "0.4"
clap = { version = "4", features = ["derive"] }
clap_complete = "4"
env_logger = "0.11"
log = "0.4"
reqwest = { version = "0.12", default-features = false, features = ["blocking", "json", "rustls-tls"] }
serde = { version = "1", features = ["derive"] }
serde_json = "1"
serde_yaml = "0.9"
slug = "0.1"
time = { version = "0.3", features = ["parsing", "macros", "formatting"] }
toml = "0.8"
url = "2"
