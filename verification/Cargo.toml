[package]
name = "popup_placement"
version = "0.1.0"
edition = "2021"
publish = false

[dependencies]
mouse_position = "*"
toml = "*"
