[package]
name = "folderify"
version = "3.0.0"
edition = "2021"
publish = false

[dependencies]
clap = { version = "4", features = ["derive"] }
clap_complete = "4"
indicatif = "0.17"
mktemp = "0.5"
