[package]
name = "dragon_display"
version = "0.1.0"
edition = "2021"
publish = false

[dependencies]
base64 = "=0.22.1"
serde = { version = "1", features = ["derive"] }
toml = "0.8"
rouille = "3"
open = "5"
reqwest = { version = "0.11", features = ["blocking"] }
tokio = { version = "1", features = ["rt-multi-thread", "fs", "io-util", "macros"] }
async-channel = "2"
google-drive = "=0.7.0"
gtk4 = "0.8"
libadwaita = "0.6"
gdk4 = "0.8"
glib = "0.19"
gstreamer = "0.22"
gstreamer-app = "0.22"
