[package]
name = "focus_timer"
version = "0.1.0"
edition = "2021"
publish = false

[dependencies]
crossterm = "0.27"
ratatui = "0.26"
discord-rich-presence = "0.2"
rodio = { version = "0.19", default-features = false, features = ["mp3"] }
