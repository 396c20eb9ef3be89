[package]
name = "screen_crab_tools"
version = "0.1.0"
edition = "2021"
publish = false

[dependencies]
clap = { version = "4", features = ["derive"] }
druid = { version = "0.8", features = ["image"] }
druid-shell = "0.8"
image = { version = "0.24", default-features = false, features = ["png", "jpeg"] }
num-traits = "0.2"
tauri-dialog = "0.1"
