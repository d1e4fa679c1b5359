[package]
name = "waybar_module_music"
version = "0.1.0"
edition = "2021"
publish = false

[dependencies]
bincode = "=2.0.1"
clap = { version = "*", features = ["derive"] }
dbus = "*"
dirs = "*"
log = "*"
serde = { version = "*", features = ["derive"] }
simplelog = "*"
toml = "*"
