[package]
name = "dependencies"
version = "0.1.0"
edition = "2021"
publish = false

[dependencies]
crossterm = "0.27"
log = "0.4"
pretty_env_logger = "0.5"
ratatui = "0.23"
reqwest = { version = "0.11", default-features = false, features = ["blocking", "rustls-tls"] }
sudo = "0.6"
sysinfo = "0.29"
whoami = "1"
