[package]
name = "mdhtml"
version = "0.1.0"
edition = "2021"
publish = false

[dependencies]
gray_matter = "*"
pulldown-cmark = "*"
serde = { version = "*", features = ["derive"] }
serde_json = "*"
clap = { version = "*", features = ["derive"] }
color-eyre = "*"
regex = "*"
