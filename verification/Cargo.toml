[package]
name = "niri_master_layout"
version = "0.1.0"
edition = "2021"
publish = false

[dependencies]
niri-ipc = "*"
serde = { version = "1", features = ["derive"] }
serde_json = "1"
