[package]
name = "keypad"
version = "0.1.0"
edition = "2021"
publish = false

[dependencies]
sysinfo = "0.15"
serialport = { version = "3.3", default-features = false }
serde = { version = "1", features = ["derive"] }
serde_json = "1"
thiserror = "1"
log = "0.4"
pretty_env_logger = "0.4"
app_dirs = "1.2"
