[package]
name = "worker_supervisor"
version = "0.1.0"
edition = "2021"
publish = false

[dependencies]
anyhow = "=1.0.104"
command-group = "=5.0.1"
dirs = "*"
lazy_static = "=1.5.1"
log = "=0.4.34"
notify-rust = "4"
serde_json = "1"
