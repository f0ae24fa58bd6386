[package]
name = "mdvew"
version = "0.1.0"
edition = "2021"
publish = false

[dependencies]
base64 = "*"
clap = { version = "*", features = ["derive"] }
headless_chrome = "*"
image = "*"
pulldown-cmark = "*"
viuer = "*"
