[package]
name = "photos_to_json"
version = "0.1.0"
edition = "2021"
publish = false

[dependencies]
clap = { version = "4", features = ["derive"] }
color-thief = "0.2"
image = { version = "0.24", default-features = false, features = ["jpeg", "png"] }
indicatif = "0.17"
path-absolutize = "3"
serde_json = { version = "1", features = ["preserve_order"] }
snafu = "0.7"
walkdir = "2"
