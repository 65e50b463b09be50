[package]
name = "mdcat"
version = "0.1.0"
edition = "2021"
publish = false

[dependencies]
ansi_term = "0.12"
anyhow = "1"
base64 = "0.12"
clap = "2.33"
image = { version = "0.23", default-features = false, features = ["bmp", "gif", "jpeg", "png"] }
immeta = "0.4"
pulldown-cmark = { version = "0.7", default-features = false }
syntect = { version = "4.2", default-features = false, features = ["default-fancy"] }
url = "2.1"
