[package]
name = "tauri_log_plugin"
version = "0.1.0"
edition = "2021"
publish = false

[dependencies]
anyhow = "=1.0.104"
byte-unit = "=4.0.19"
chrono = "=0.4.45"
fern = "=0.6.2"
log = "=0.4.34"
serde_json = "=1.0.154"
tauri = "0.8"
