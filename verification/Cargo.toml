[package]
name = "mdterm"
version = "0.1.0"
edition = "2021"
publish = false

[dependencies]
pulldown-cmark = { version = "0.2", default-features = false }
syntect = { version = "5", default-features = false, features = ["default-fancy"] }
