[package]
name = "gleam_pkg"
version = "0.1.0"
edition = "2021"
publish = false

[dependencies]
base64 = "*"
bytes = "*"
clap = { version = "*", features = ["derive"] }
dirs = "*"
flate2 = "*"
reqwest = { version = "*", default-features = false, features = ["blocking"] }
serde_json = "*"
tar = "*"
thiserror = "*"
