[package]
name = "wallpaper_cli"
version = "0.1.0"
edition = "2021"
publish = false

[dependencies]
clap = "=3.2.25"
wallpaper = { version = "=3.2.0", features = ["from_url"] }
