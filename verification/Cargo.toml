[package]
name = "text2gif"
version = "0.1.0"
edition = "2021"
publish = false

[dependencies]
freetype-rs = "*"
gif = "0.10"
